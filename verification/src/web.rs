//! Webpush protocol specific message options.

use vstd::prelude::*;

verus! {

use crate::json::JsonData;
use crate::json::JsonValue;
use crate::json::deep_entries;
use crate::json::opt_member;
use crate::json::opt_value_data;
use crate::json::push_member;
use crate::json::push_opt_value;
use crate::json::push_str;

/// Options for features provided by the FCM SDK for Web.
pub struct WebpushFcmOptions {
    /// The link to open when the user clicks on the notification.
    pub link: String,
    /// Label associated with the message's analytics data.
    pub analytics_label: String,
}

impl WebpushFcmOptions {
    /// The wire object of these options: both fields always present.
    pub open spec fn wire(self) -> JsonData {
        JsonData::Obj(
            seq![
                ("link"@, JsonData::Str(self.link@)),
                ("analytics_label"@, JsonData::Str(self.analytics_label@)),
            ],
        )
    }

    /// Lowers these options to their wire object.
    pub fn to_json(&self) -> (r: JsonValue)
        ensures
            r.deep() == self.wire(),
    {
        let mut members: Vec<(String, JsonValue)> = Vec::new();
        push_str(&mut members, "link", &self.link);
        push_str(&mut members, "analytics_label", &self.analytics_label);
        proof {
            assert(deep_entries(members@) =~= self.wire()->Obj_0);
        }
        JsonValue::Obj(members)
    }
}

/// The wire datum of an optional Webpush FCM options field.
pub open spec fn opt_webpush_fcm_options_data(v: Option<WebpushFcmOptions>) -> Option<JsonData> {
    match v {
        None => None,
        Some(o) => Some(o.wire()),
    }
}

/// Webpush protocol specific options for a message.
pub struct WebpushConfig {
    /// HTTP headers defined in the webpush protocol.
    pub headers: Option<JsonValue>,
    /// Arbitrary key/value payload.
    pub data: Option<JsonValue>,
    /// Web Notification options as a JSON object.
    pub notification: Option<JsonValue>,
    /// Options for features provided by the FCM SDK for Web.
    pub fcm_options: Option<WebpushFcmOptions>,
}

impl WebpushConfig {
    /// The wire object of this configuration: absent fields are omitted.
    pub open spec fn wire(self) -> JsonData {
        JsonData::Obj(
            opt_member("headers"@, opt_value_data(self.headers)) + opt_member(
                "data"@,
                opt_value_data(self.data),
            ) + opt_member("notification"@, opt_value_data(self.notification)) + opt_member(
                "fcm_options"@,
                opt_webpush_fcm_options_data(self.fcm_options),
            ),
        )
    }

    /// Lowers this configuration to its wire object.
    pub fn to_json(&self) -> (r: JsonValue)
        ensures
            r.deep() == self.wire(),
    {
        let mut members: Vec<(String, JsonValue)> = Vec::new();
        push_opt_value(&mut members, "headers", &self.headers);
        push_opt_value(&mut members, "data", &self.data);
        push_opt_value(&mut members, "notification", &self.notification);
        let ghost before_options = deep_entries(members@);
        match &self.fcm_options {
            Some(o) => {
                push_member(&mut members, "fcm_options", o.to_json());
                proof {
                    assert(deep_entries(members@) =~= before_options + opt_member(
                        "fcm_options"@,
                        opt_webpush_fcm_options_data(self.fcm_options),
                    ));
                }
            },
            None => {
                proof {
                    assert(deep_entries(members@) =~= before_options + opt_member(
                        "fcm_options"@,
                        opt_webpush_fcm_options_data(self.fcm_options),
                    ));
                }
            },
        }
        proof {
            assert(deep_entries(members@) =~= self.wire()->Obj_0);
        }
        JsonValue::Obj(members)
    }
}

} // verus!
