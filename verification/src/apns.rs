//! Apple Push Notification Service specific message options.

use vstd::prelude::*;

verus! {

use crate::json::JsonData;
use crate::json::JsonValue;
use crate::json::deep_entries;
use crate::json::opt_member;
use crate::json::opt_str_data;
use crate::json::opt_value_data;
use crate::json::push_member;
use crate::json::push_opt_str;
use crate::json::push_opt_value;

/// Options for features provided by the FCM SDK for iOS.
pub struct ApnsFcmOptions {
    /// Label associated with the message's analytics data.
    pub analytics_label: Option<String>,
    /// URL of an image to be displayed in the notification.
    pub image: Option<String>,
}

impl ApnsFcmOptions {
    /// The wire object of these options: absent fields are omitted.
    pub open spec fn wire(self) -> JsonData {
        JsonData::Obj(
            opt_member("analytics_label"@, opt_str_data(self.analytics_label)) + opt_member(
                "image"@,
                opt_str_data(self.image),
            ),
        )
    }

    /// Lowers these options to their wire object.
    pub fn to_json(&self) -> (r: JsonValue)
        ensures
            r.deep() == self.wire(),
    {
        let mut members: Vec<(String, JsonValue)> = Vec::new();
        push_opt_str(&mut members, "analytics_label", &self.analytics_label);
        push_opt_str(&mut members, "image", &self.image);
        proof {
            assert(deep_entries(members@) =~= self.wire()->Obj_0);
        }
        JsonValue::Obj(members)
    }
}

/// The wire datum of an optional APNs FCM options field.
pub open spec fn opt_apns_fcm_options_data(v: Option<ApnsFcmOptions>) -> Option<JsonData> {
    match v {
        None => None,
        Some(o) => Some(o.wire()),
    }
}

/// Apple Push Notification Service specific options for a message.
pub struct ApnsConfig {
    /// HTTP request headers defined in APNs.
    pub headers: Option<JsonValue>,
    /// APNs payload, including both the aps dictionary and any custom
    /// payload.
    pub payload: Option<JsonValue>,
    /// Options for features provided by the FCM SDK for iOS.
    pub fcm_options: Option<ApnsFcmOptions>,
}

impl ApnsConfig {
    /// The wire object of this configuration: absent fields are omitted.
    pub open spec fn wire(self) -> JsonData {
        JsonData::Obj(
            opt_member("headers"@, opt_value_data(self.headers)) + opt_member(
                "payload"@,
                opt_value_data(self.payload),
            ) + opt_member("fcm_options"@, opt_apns_fcm_options_data(self.fcm_options)),
        )
    }

    /// Lowers this configuration to its wire object.
    pub fn to_json(&self) -> (r: JsonValue)
        ensures
            r.deep() == self.wire(),
    {
        let mut members: Vec<(String, JsonValue)> = Vec::new();
        push_opt_value(&mut members, "headers", &self.headers);
        push_opt_value(&mut members, "payload", &self.payload);
        let ghost before_options = deep_entries(members@);
        match &self.fcm_options {
            Some(o) => {
                push_member(&mut members, "fcm_options", o.to_json());
                proof {
                    assert(deep_entries(members@) =~= before_options + opt_member(
                        "fcm_options"@,
                        opt_apns_fcm_options_data(self.fcm_options),
                    ));
                }
            },
            None => {
                proof {
                    assert(deep_entries(members@) =~= before_options + opt_member(
                        "fcm_options"@,
                        opt_apns_fcm_options_data(self.fcm_options),
                    ));
                }
            },
        }
        proof {
            assert(deep_entries(members@) =~= self.wire()->Obj_0);
        }
        JsonValue::Obj(members)
    }
}

} // verus!
