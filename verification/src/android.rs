//! Android-specific message options.

use vstd::prelude::*;

verus! {

use vstd::string::StringExecFns;
use crate::json::JsonData;
use crate::json::JsonValue;
use crate::json::deep_entries;
use crate::json::opt_member;
use crate::json::opt_bool_data;
use crate::json::opt_i32_data;
use crate::json::opt_str_data;
use crate::json::opt_str_list_data;
use crate::json::opt_value_data;
use crate::json::push_member;
use crate::json::push_opt_bool;
use crate::json::push_opt_i32;
use crate::json::push_opt_str;
use crate::json::push_opt_str_list;
use crate::json::push_opt_value;
use crate::json::push_str;

/// Message priority for the Android transport.
///
/// The wire form is a fixed upper-case token; no other value can pass
/// through this field.
pub enum AndroidMessagePriority {
    Normal,
    High,
}

impl AndroidMessagePriority {
    /// The wire token of this priority.
    pub open spec fn wire_token(self) -> Seq<char> {
        match self {
            AndroidMessagePriority::Normal => "NORMAL"@,
            AndroidMessagePriority::High => "HIGH"@,
        }
    }

    /// The wire token of this priority.
    pub fn token(&self) -> (r: &'static str)
        ensures
            r@ == self.wire_token(),
    {
        match self {
            AndroidMessagePriority::Normal => "NORMAL",
            AndroidMessagePriority::High => "HIGH",
        }
    }
}

/// Relative priority of the displayed notification.
pub enum NotificationPriority {
    PriorityUnspecified,
    PriorityMin,
    PriorityLow,
    PriorityDefault,
    PriorityHigh,
    PriorityMax,
}

impl NotificationPriority {
    /// The wire token of this priority.
    pub open spec fn wire_token(self) -> Seq<char> {
        match self {
            NotificationPriority::PriorityUnspecified => "PRIORITYUNSPECIFIED"@,
            NotificationPriority::PriorityMin => "PRIORITYMIN"@,
            NotificationPriority::PriorityLow => "PRIORITYLOW"@,
            NotificationPriority::PriorityDefault => "PRIORITYDEFAULT"@,
            NotificationPriority::PriorityHigh => "PRIORITYHIGH"@,
            NotificationPriority::PriorityMax => "PRIORITYMAX"@,
        }
    }

    /// The wire token of this priority.
    pub fn token(&self) -> (r: &'static str)
        ensures
            r@ == self.wire_token(),
    {
        match self {
            NotificationPriority::PriorityUnspecified => "PRIORITYUNSPECIFIED",
            NotificationPriority::PriorityMin => "PRIORITYMIN",
            NotificationPriority::PriorityLow => "PRIORITYLOW",
            NotificationPriority::PriorityDefault => "PRIORITYDEFAULT",
            NotificationPriority::PriorityHigh => "PRIORITYHIGH",
            NotificationPriority::PriorityMax => "PRIORITYMAX",
        }
    }
}

/// Sphere in which the notification is visible on the lock screen.
pub enum Visibility {
    VisibilityUnspecified,
    Private,
    Public,
    Secret,
}

impl Visibility {
    /// The wire token of this visibility.
    pub open spec fn wire_token(self) -> Seq<char> {
        match self {
            Visibility::VisibilityUnspecified => "VISIBILITYUNSPECIFIED"@,
            Visibility::Private => "PRIVATE"@,
            Visibility::Public => "PUBLIC"@,
            Visibility::Secret => "SECRET"@,
        }
    }

    /// The wire token of this visibility.
    pub fn token(&self) -> (r: &'static str)
        ensures
            r@ == self.wire_token(),
    {
        match self {
            Visibility::VisibilityUnspecified => "VISIBILITYUNSPECIFIED",
            Visibility::Private => "PRIVATE",
            Visibility::Public => "PUBLIC",
            Visibility::Secret => "SECRET",
        }
    }
}

/// Color of the notification LED.
///
/// Each channel is the decimal text of a value in the interval [0, 1]
/// (for example `"1"` or `"0.5"`), kept as text so that the model holds
/// no floating-point value; the text is emitted verbatim as the JSON
/// number of the channel.
pub struct Color {
    pub red: String,
    pub green: String,
    pub blue: String,
    pub alpha: String,
}

impl Color {
    /// The wire object of this color: all four channels, always present.
    pub open spec fn wire(self) -> JsonData {
        JsonData::Obj(
            seq![
                ("red"@, JsonData::Num(self.red@)),
                ("green"@, JsonData::Num(self.green@)),
                ("blue"@, JsonData::Num(self.blue@)),
                ("alpha"@, JsonData::Num(self.alpha@)),
            ],
        )
    }

    /// Lowers this color to its wire object.
    pub fn to_json(&self) -> (r: JsonValue)
        ensures
            r.deep() == self.wire(),
    {
        let mut members: Vec<(String, JsonValue)> = Vec::new();
        push_member(&mut members, "red", JsonValue::Num(self.red.clone()));
        push_member(&mut members, "green", JsonValue::Num(self.green.clone()));
        push_member(&mut members, "blue", JsonValue::Num(self.blue.clone()));
        push_member(&mut members, "alpha", JsonValue::Num(self.alpha.clone()));
        proof {
            assert(deep_entries(members@) =~= self.wire()->Obj_0);
        }
        JsonValue::Obj(members)
    }
}

/// Blink rate and color of the notification LED.
pub struct LightSettings {
    /// Color of the LED.
    pub color: Color,
    /// How long the LED is on within one blink, as a duration in the
    /// protobuf text form (for example `"3.5s"`).
    pub light_on_duration: String,
    /// How long the LED is off within one blink, in the same form.
    pub light_off_duration: String,
}

impl LightSettings {
    /// The wire object of these light settings: all fields present.
    pub open spec fn wire(self) -> JsonData {
        JsonData::Obj(
            seq![
                ("color"@, self.color.wire()),
                ("light_on_duration"@, JsonData::Str(self.light_on_duration@)),
                ("light_off_duration"@, JsonData::Str(self.light_off_duration@)),
            ],
        )
    }

    /// Lowers these light settings to their wire object.
    pub fn to_json(&self) -> (r: JsonValue)
        ensures
            r.deep() == self.wire(),
    {
        let mut members: Vec<(String, JsonValue)> = Vec::new();
        push_member(&mut members, "color", self.color.to_json());
        push_str(&mut members, "light_on_duration", &self.light_on_duration);
        push_str(&mut members, "light_off_duration", &self.light_off_duration);
        proof {
            assert(deep_entries(members@) =~= self.wire()->Obj_0);
        }
        JsonValue::Obj(members)
    }
}

/// Options for features provided by the FCM SDK for Android.
pub struct AndroidFcmOptions {
    /// Label associated with the message's analytics data.
    pub analytics_label: String,
}

impl AndroidFcmOptions {
    /// The wire object of these options.
    pub open spec fn wire(self) -> JsonData {
        JsonData::Obj(seq![("analytics_label"@, JsonData::Str(self.analytics_label@))])
    }

    /// Lowers these options to their wire object.
    pub fn to_json(&self) -> (r: JsonValue)
        ensures
            r.deep() == self.wire(),
    {
        let mut members: Vec<(String, JsonValue)> = Vec::new();
        push_str(&mut members, "analytics_label", &self.analytics_label);
        proof {
            assert(deep_entries(members@) =~= self.wire()->Obj_0);
        }
        JsonValue::Obj(members)
    }
}

/// Notification to send to Android devices.
pub struct AndroidNotification {
    /// The notification's title.
    pub title: Option<String>,
    /// The notification's body text.
    pub body: Option<String>,
    /// The notification's icon.
    pub icon: Option<String>,
    /// The notification's icon color, in `#rrggbb` form.
    pub color: Option<String>,
    /// The sound to play when the device receives the notification.
    pub sound: Option<String>,
    /// Identifier used to replace existing notifications in the drawer.
    pub tag: Option<String>,
    /// The action associated with a user click on the notification.
    pub click_action: Option<String>,
    /// Key of the localized body string in the app's resources.
    pub body_loc_key: Option<String>,
    /// Substitutions for the format specifiers in `body_loc_key`.
    pub body_loc_args: Option<Vec<String>>,
    /// Key of the localized title string in the app's resources.
    pub title_loc_key: Option<String>,
    /// Substitutions for the format specifiers in `title_loc_key`.
    pub title_loc_args: Option<Vec<String>>,
    /// The notification's channel id.
    pub channel_id: Option<String>,
    /// The "ticker" text, sent to accessibility services.
    pub ticker: Option<String>,
    /// When false or unset, clicking the notification dismisses it.
    pub sticky: Option<bool>,
    /// Time of the event shown in the notification, in the protobuf
    /// timestamp text form.
    pub event_time: Option<String>,
    /// Whether the notification is relevant only to the current device.
    pub local_only: Option<bool>,
    /// Relative priority of this notification.
    pub notification_priority: Option<NotificationPriority>,
    /// Whether to use the framework's default sound.
    pub default_sound: Option<bool>,
    /// Whether to use the framework's default vibrate pattern.
    pub default_vibrate_timings: Option<bool>,
    /// Whether to use the framework's default LED light settings.
    pub default_light_settings: Option<bool>,
    /// The vibration pattern, as durations in the protobuf text form.
    pub vibrate_timings: Option<Vec<String>>,
    /// Lock-screen visibility of the notification.
    pub visibility: Option<Visibility>,
    /// Number of items this notification represents.
    pub notification_count: Option<i32>,
    /// LED blink rate and color, where the device has an LED.
    pub light_settings: Option<LightSettings>,
    /// URL of an image to be displayed in the notification.
    pub image: Option<String>,
}

/// The wire datum of an optional notification priority field.
pub open spec fn opt_notification_priority_data(v: Option<NotificationPriority>) -> Option<
    JsonData,
> {
    match v {
        None => None,
        Some(p) => Some(JsonData::Str(p.wire_token())),
    }
}

/// The wire datum of an optional visibility field.
pub open spec fn opt_visibility_data(v: Option<Visibility>) -> Option<JsonData> {
    match v {
        None => None,
        Some(p) => Some(JsonData::Str(p.wire_token())),
    }
}

/// The wire datum of an optional light-settings field.
pub open spec fn opt_light_settings_data(v: Option<LightSettings>) -> Option<JsonData> {
    match v {
        None => None,
        Some(ls) => Some(ls.wire()),
    }
}

impl AndroidNotification {
    /// The members of the wire object, first half.
    pub open spec fn wire_members_head(self) -> Seq<(Seq<char>, JsonData)> {
        opt_member("title"@, opt_str_data(self.title)) + opt_member(
            "body"@,
            opt_str_data(self.body),
        ) + opt_member("icon"@, opt_str_data(self.icon)) + opt_member(
            "color"@,
            opt_str_data(self.color),
        ) + opt_member("sound"@, opt_str_data(self.sound)) + opt_member(
            "tag"@,
            opt_str_data(self.tag),
        ) + opt_member("click_action"@, opt_str_data(self.click_action)) + opt_member(
            "body_loc_key"@,
            opt_str_data(self.body_loc_key),
        ) + opt_member("body_loc_args"@, opt_str_list_data(self.body_loc_args)) + opt_member(
            "title_loc_key"@,
            opt_str_data(self.title_loc_key),
        ) + opt_member("title_loc_args"@, opt_str_list_data(self.title_loc_args)) + opt_member(
            "channel_id"@,
            opt_str_data(self.channel_id),
        ) + opt_member("ticker"@, opt_str_data(self.ticker))
    }

    /// The members of the wire object, middle third.
    pub open spec fn wire_members_mid(self) -> Seq<(Seq<char>, JsonData)> {
        opt_member("sticky"@, opt_bool_data(self.sticky)) + opt_member(
            "event_time"@,
            opt_str_data(self.event_time),
        ) + opt_member("local_only"@, opt_bool_data(self.local_only)) + opt_member(
            "notification_priority"@,
            opt_notification_priority_data(self.notification_priority),
        ) + opt_member("default_sound"@, opt_bool_data(self.default_sound)) + opt_member(
            "default_vibrate_timings"@,
            opt_bool_data(self.default_vibrate_timings),
        ) + opt_member("default_light_settings"@, opt_bool_data(self.default_light_settings))
            + opt_member("vibrate_timings"@, opt_str_list_data(self.vibrate_timings))
    }

    /// The members of the wire object, last third.
    pub open spec fn wire_members_end(self) -> Seq<(Seq<char>, JsonData)> {
        opt_member("visibility"@, opt_visibility_data(self.visibility)) + opt_member(
            "notification_count"@,
            opt_i32_data(self.notification_count),
        ) + opt_member("light_settings"@, opt_light_settings_data(self.light_settings))
            + opt_member("image"@, opt_str_data(self.image))
    }

    /// The wire object of this notification: absent fields are omitted.
    pub open spec fn wire(self) -> JsonData {
        JsonData::Obj(
            self.wire_members_head() + self.wire_members_mid() + self.wire_members_end(),
        )
    }

    /// Appends the first half of the wire members.
    #[verifier::rlimit(100)]
    fn push_head(&self, members: &mut Vec<(String, JsonValue)>)
        ensures
            deep_entries(final(members)@) == deep_entries(old(members)@)
                + self.wire_members_head(),
    {
        let ghost start = deep_entries(old(members)@);
        push_opt_str(members, "title", &self.title);
        push_opt_str(members, "body", &self.body);
        push_opt_str(members, "icon", &self.icon);
        push_opt_str(members, "color", &self.color);
        push_opt_str(members, "sound", &self.sound);
        push_opt_str(members, "tag", &self.tag);
        push_opt_str(members, "click_action", &self.click_action);
        proof {
            assert(deep_entries(members@) =~= start + (opt_member(
                "title"@,
                opt_str_data(self.title),
            ) + opt_member("body"@, opt_str_data(self.body)) + opt_member(
                "icon"@,
                opt_str_data(self.icon),
            ) + opt_member("color"@, opt_str_data(self.color)) + opt_member(
                "sound"@,
                opt_str_data(self.sound),
            ) + opt_member("tag"@, opt_str_data(self.tag)) + opt_member(
                "click_action"@,
                opt_str_data(self.click_action),
            )));
        }
        push_opt_str(members, "body_loc_key", &self.body_loc_key);
        push_opt_str_list(members, "body_loc_args", &self.body_loc_args);
        push_opt_str(members, "title_loc_key", &self.title_loc_key);
        push_opt_str_list(members, "title_loc_args", &self.title_loc_args);
        push_opt_str(members, "channel_id", &self.channel_id);
        push_opt_str(members, "ticker", &self.ticker);
        proof {
            assert(deep_entries(members@) =~= start + self.wire_members_head());
        }
    }

    /// Appends the middle third of the wire members.
    #[verifier::rlimit(100)]
    fn push_mid(&self, members: &mut Vec<(String, JsonValue)>)
        ensures
            deep_entries(final(members)@) == deep_entries(old(members)@)
                + self.wire_members_mid(),
    {
        let ghost start = deep_entries(old(members)@);
        push_opt_bool(members, "sticky", &self.sticky);
        push_opt_str(members, "event_time", &self.event_time);
        push_opt_bool(members, "local_only", &self.local_only);
        let ghost before_priority = deep_entries(members@);
        match &self.notification_priority {
            Some(p) => {
                push_member(
                    members,
                    "notification_priority",
                    JsonValue::Str(String::from_str(p.token())),
                );
                proof {
                    assert(deep_entries(members@) =~= before_priority + opt_member(
                        "notification_priority"@,
                        opt_notification_priority_data(self.notification_priority),
                    ));
                }
            },
            None => {
                proof {
                    assert(deep_entries(members@) =~= before_priority + opt_member(
                        "notification_priority"@,
                        opt_notification_priority_data(self.notification_priority),
                    ));
                }
            },
        }
        push_opt_bool(members, "default_sound", &self.default_sound);
        push_opt_bool(members, "default_vibrate_timings", &self.default_vibrate_timings);
        push_opt_bool(members, "default_light_settings", &self.default_light_settings);
        push_opt_str_list(members, "vibrate_timings", &self.vibrate_timings);
        proof {
            assert(deep_entries(members@) =~= start + self.wire_members_mid());
        }
    }

    /// Appends the last third of the wire members.
    #[verifier::rlimit(100)]
    fn push_end(&self, members: &mut Vec<(String, JsonValue)>)
        ensures
            deep_entries(final(members)@) == deep_entries(old(members)@)
                + self.wire_members_end(),
    {
        let ghost start = deep_entries(old(members)@);
        let ghost before_visibility = deep_entries(members@);
        match &self.visibility {
            Some(p) => {
                push_member(members, "visibility", JsonValue::Str(String::from_str(p.token())));
                proof {
                    assert(deep_entries(members@) =~= before_visibility + opt_member(
                        "visibility"@,
                        opt_visibility_data(self.visibility),
                    ));
                }
            },
            None => {
                proof {
                    assert(deep_entries(members@) =~= before_visibility + opt_member(
                        "visibility"@,
                        opt_visibility_data(self.visibility),
                    ));
                }
            },
        }
        push_opt_i32(members, "notification_count", &self.notification_count);
        let ghost before_lights = deep_entries(members@);
        match &self.light_settings {
            Some(ls) => {
                push_member(members, "light_settings", ls.to_json());
                proof {
                    assert(deep_entries(members@) =~= before_lights + opt_member(
                        "light_settings"@,
                        opt_light_settings_data(self.light_settings),
                    ));
                }
            },
            None => {
                proof {
                    assert(deep_entries(members@) =~= before_lights + opt_member(
                        "light_settings"@,
                        opt_light_settings_data(self.light_settings),
                    ));
                }
            },
        }
        push_opt_str(members, "image", &self.image);
        proof {
            assert(deep_entries(members@) =~= start + self.wire_members_end());
        }
    }

    /// Lowers this notification to its wire object.
    pub fn to_json(&self) -> (r: JsonValue)
        ensures
            r.deep() == self.wire(),
    {
        let mut members: Vec<(String, JsonValue)> = Vec::new();
        self.push_head(&mut members);
        self.push_mid(&mut members);
        self.push_end(&mut members);
        proof {
            assert(deep_entries(members@) =~= self.wire_members_head()
                + self.wire_members_mid() + self.wire_members_end());
        }
        JsonValue::Obj(members)
    }
}

/// The wire datum of an optional Android message priority field.
pub open spec fn opt_android_priority_data(v: Option<AndroidMessagePriority>) -> Option<JsonData> {
    match v {
        None => None,
        Some(p) => Some(JsonData::Str(p.wire_token())),
    }
}

/// The wire datum of an optional Android notification field.
pub open spec fn opt_android_notification_data(v: Option<AndroidNotification>) -> Option<
    JsonData,
> {
    match v {
        None => None,
        Some(n) => Some(n.wire()),
    }
}

/// The wire datum of an optional Android FCM options field.
pub open spec fn opt_android_fcm_options_data(v: Option<AndroidFcmOptions>) -> Option<JsonData> {
    match v {
        None => None,
        Some(o) => Some(o.wire()),
    }
}

/// Android-specific options for a message.
pub struct AndroidConfig {
    /// Identifier of a group of messages that can be collapsed.
    pub collapse_key: Option<String>,
    /// Message priority.
    pub priority: Option<AndroidMessagePriority>,
    /// How long the message is kept in FCM storage when the device is
    /// offline, as a duration in the protobuf text form.
    pub ttl: Option<String>,
    /// Package name of the application whose registration token must
    /// match for the message to be received.
    pub restricted_package_name: Option<String>,
    /// Arbitrary key/value payload.
    pub data: Option<JsonValue>,
    /// Notification to send to Android devices.
    pub notification: Option<AndroidNotification>,
    /// Options for features provided by the FCM SDK for Android.
    pub fcm_options: Option<AndroidFcmOptions>,
    /// Whether the message may be delivered while the device is in
    /// direct boot mode.
    pub direct_boot_ok: Option<bool>,
}

impl AndroidConfig {
    /// The wire object of this configuration: absent fields are omitted.
    pub open spec fn wire(self) -> JsonData {
        JsonData::Obj(
            opt_member("collapse_key"@, opt_str_data(self.collapse_key)) + opt_member(
                "priority"@,
                opt_android_priority_data(self.priority),
            ) + opt_member("ttl"@, opt_str_data(self.ttl)) + opt_member(
                "restricted_package_name"@,
                opt_str_data(self.restricted_package_name),
            ) + opt_member("data"@, opt_value_data(self.data)) + opt_member(
                "notification"@,
                opt_android_notification_data(self.notification),
            ) + opt_member("fcm_options"@, opt_android_fcm_options_data(self.fcm_options))
                + opt_member("direct_boot_ok"@, opt_bool_data(self.direct_boot_ok)),
        )
    }

    /// Lowers this configuration to its wire object.
    #[verifier::rlimit(30)]
    pub fn to_json(&self) -> (r: JsonValue)
        ensures
            r.deep() == self.wire(),
    {
        let mut members: Vec<(String, JsonValue)> = Vec::new();
        push_opt_str(&mut members, "collapse_key", &self.collapse_key);
        let ghost before_priority = deep_entries(members@);
        match &self.priority {
            Some(p) => {
                push_member(&mut members, "priority", JsonValue::Str(String::from_str(p.token())));
                proof {
                    assert(deep_entries(members@) =~= before_priority + opt_member(
                        "priority"@,
                        opt_android_priority_data(self.priority),
                    ));
                }
            },
            None => {
                proof {
                    assert(deep_entries(members@) =~= before_priority + opt_member(
                        "priority"@,
                        opt_android_priority_data(self.priority),
                    ));
                }
            },
        }
        push_opt_str(&mut members, "ttl", &self.ttl);
        push_opt_str(&mut members, "restricted_package_name", &self.restricted_package_name);
        push_opt_value(&mut members, "data", &self.data);
        let ghost before_notification = deep_entries(members@);
        match &self.notification {
            Some(n) => {
                push_member(&mut members, "notification", n.to_json());
                proof {
                    assert(deep_entries(members@) =~= before_notification + opt_member(
                        "notification"@,
                        opt_android_notification_data(self.notification),
                    ));
                }
            },
            None => {
                proof {
                    assert(deep_entries(members@) =~= before_notification + opt_member(
                        "notification"@,
                        opt_android_notification_data(self.notification),
                    ));
                }
            },
        }
        let ghost before_options = deep_entries(members@);
        match &self.fcm_options {
            Some(o) => {
                push_member(&mut members, "fcm_options", o.to_json());
                proof {
                    assert(deep_entries(members@) =~= before_options + opt_member(
                        "fcm_options"@,
                        opt_android_fcm_options_data(self.fcm_options),
                    ));
                }
            },
            None => {
                proof {
                    assert(deep_entries(members@) =~= before_options + opt_member(
                        "fcm_options"@,
                        opt_android_fcm_options_data(self.fcm_options),
                    ));
                }
            },
        }
        push_opt_bool(&mut members, "direct_boot_ok", &self.direct_boot_ok);
        proof {
            assert(deep_entries(members@) =~= self.wire()->Obj_0);
        }
        JsonValue::Obj(members)
    }
}

} // verus!
