//! The message data model and its wire encoding.
//!
//! A [`Message`] is lowered to a JSON object whose optional fields are
//! omitted entirely when absent, and whose delivery target appears as a
//! single flattened member keyed by the variant name.  The envelope sent
//! to the endpoint wraps the message under a `message` member, with a
//! `validate_only` sibling only in dry-run mode.

use vstd::prelude::*;

verus! {

use crate::android::AndroidConfig;
use crate::apns::ApnsConfig;
use crate::json::JsonData;
use crate::json::JsonValue;
use crate::json::deep_entries;
use crate::json::obj_get;
use crate::json::opt_member;
use crate::json::opt_value_data;
use crate::json::push_member;
use crate::json::push_opt_value;
use crate::json::push_str;
use crate::notification::Notification;
use crate::web::WebpushConfig;

/// Target to send a message to: exactly one of a device token, a topic
/// name, or a boolean condition over topics.
#[derive(Debug, Clone)]
pub enum Target {
    Token(String),
    Topic(String),
    Condition(String),
}

impl PartialEq for Target {
    fn eq(&self, other: &Self) -> (r: bool) {
        match (self, other) {
            (Target::Token(a), Target::Token(b)) => *a == *b,
            (Target::Topic(a), Target::Topic(b)) => *a == *b,
            (Target::Condition(a), Target::Condition(b)) => *a == *b,
            _ => false,
        }
    }
}

impl vstd::std_specs::cmp::PartialEqSpecImpl for Target {
    open spec fn obeys_eq_spec() -> bool {
        true
    }

    open spec fn eq_spec(&self, other: &Self) -> bool {
        match (self, other) {
            (Target::Token(a), Target::Token(b)) => a@ == b@,
            (Target::Topic(a), Target::Topic(b)) => a@ == b@,
            (Target::Condition(a), Target::Condition(b)) => a@ == b@,
            _ => false,
        }
    }
}

impl Target {
    /// The wire key of this target: the lower-case variant name.
    pub open spec fn wire_key(self) -> Seq<char> {
        match self {
            Target::Token(_) => "token"@,
            Target::Topic(_) => "topic"@,
            Target::Condition(_) => "condition"@,
        }
    }

    /// The wire value of this target.
    pub open spec fn wire_value(self) -> Seq<char> {
        match self {
            Target::Token(s) => s@,
            Target::Topic(s) => s@,
            Target::Condition(s) => s@,
        }
    }

    /// The single flattened member this target adds to the message
    /// object; it is never wrapped in an intermediate object.
    pub open spec fn wire_member(self) -> (Seq<char>, JsonData) {
        (self.wire_key(), JsonData::Str(self.wire_value()))
    }

    /// Appends the target's member to a message object under
    /// construction.
    fn push_wire(&self, members: &mut Vec<(String, JsonValue)>)
        ensures
            deep_entries(final(members)@) == deep_entries(old(members)@).push(self.wire_member()),
    {
        match self {
            Target::Token(s) => push_str(members, "token", s),
            Target::Topic(s) => push_str(members, "topic", s),
            Target::Condition(s) => push_str(members, "condition", s),
        }
    }
}

/// Options for features provided by the FCM SDK, across platforms.
pub struct FcmOptions {
    /// Label associated with the message's analytics data.
    pub analytics_label: String,
}

impl FcmOptions {
    /// The wire object of these options.
    pub open spec fn wire(self) -> JsonData {
        JsonData::Obj(seq![("analytics_label"@, JsonData::Str(self.analytics_label@))])
    }

    /// Lowers these options to their wire object.
    pub fn to_json(&self) -> (r: JsonValue)
        ensures
            r.deep() == self.wire(),
    {
        let mut members: Vec<(String, JsonValue)> = Vec::new();
        push_str(&mut members, "analytics_label", &self.analytics_label);
        proof {
            assert(deep_entries(members@) =~= self.wire()->Obj_0);
        }
        JsonValue::Obj(members)
    }
}

/// The wire datum of an optional basic notification field.
pub open spec fn opt_notification_data(v: Option<Notification>) -> Option<JsonData> {
    match v {
        None => None,
        Some(n) => Some(n.wire()),
    }
}

/// The wire datum of an optional Android configuration field.
pub open spec fn opt_android_config_data(v: Option<AndroidConfig>) -> Option<JsonData> {
    match v {
        None => None,
        Some(c) => Some(c.wire()),
    }
}

/// The wire datum of an optional Webpush configuration field.
pub open spec fn opt_webpush_config_data(v: Option<WebpushConfig>) -> Option<JsonData> {
    match v {
        None => None,
        Some(c) => Some(c.wire()),
    }
}

/// The wire datum of an optional APNs configuration field.
pub open spec fn opt_apns_config_data(v: Option<ApnsConfig>) -> Option<JsonData> {
    match v {
        None => None,
        Some(c) => Some(c.wire()),
    }
}

/// The wire datum of an optional FCM options field.
pub open spec fn opt_fcm_options_data(v: Option<FcmOptions>) -> Option<JsonData> {
    match v {
        None => None,
        Some(o) => Some(o.wire()),
    }
}

/// The unit of work: one notification request.
///
/// Immutable once handed to the send client; every optional field that
/// is absent is omitted from the wire form entirely.
pub struct Message {
    /// Arbitrary key/value payload; values must be strings.
    pub data: Option<JsonValue>,
    /// Basic notification template to use across all platforms.
    pub notification: Option<Notification>,
    /// Android specific options.
    pub android: Option<AndroidConfig>,
    /// Webpush protocol options.
    pub webpush: Option<WebpushConfig>,
    /// Apple Push Notification Service specific options.
    pub apns: Option<ApnsConfig>,
    /// FCM SDK feature options to use across all platforms.
    pub fcm_options: Option<FcmOptions>,
    /// Target to send the message to.
    pub target: Target,
}

impl Message {
    /// The members of the wire object: the optional fields in
    /// declaration order, then the flattened target member.
    pub open spec fn wire_members(self) -> Seq<(Seq<char>, JsonData)> {
        opt_member("data"@, opt_value_data(self.data)) + opt_member(
            "notification"@,
            opt_notification_data(self.notification),
        ) + opt_member("android"@, opt_android_config_data(self.android)) + opt_member(
            "webpush"@,
            opt_webpush_config_data(self.webpush),
        ) + opt_member("apns"@, opt_apns_config_data(self.apns)) + opt_member(
            "fcm_options"@,
            opt_fcm_options_data(self.fcm_options),
        ) + seq![self.target.wire_member()]
    }

    /// The wire object of this message.
    pub open spec fn wire(self) -> JsonData {
        JsonData::Obj(self.wire_members())
    }

    /// Lowers this message to its wire object.
    #[verifier::rlimit(100)]
    pub fn to_json(&self) -> (r: JsonValue)
        ensures
            r.deep() == self.wire(),
    {
        let mut members: Vec<(String, JsonValue)> = Vec::new();
        push_opt_value(&mut members, "data", &self.data);
        let ghost before_notification = deep_entries(members@);
        match &self.notification {
            Some(n) => {
                push_member(&mut members, "notification", n.to_json());
                proof {
                    assert(deep_entries(members@) =~= before_notification + opt_member(
                        "notification"@,
                        opt_notification_data(self.notification),
                    ));
                }
            },
            None => {
                proof {
                    assert(deep_entries(members@) =~= before_notification + opt_member(
                        "notification"@,
                        opt_notification_data(self.notification),
                    ));
                }
            },
        }
        let ghost before_android = deep_entries(members@);
        match &self.android {
            Some(c) => {
                push_member(&mut members, "android", c.to_json());
                proof {
                    assert(deep_entries(members@) =~= before_android + opt_member(
                        "android"@,
                        opt_android_config_data(self.android),
                    ));
                }
            },
            None => {
                proof {
                    assert(deep_entries(members@) =~= before_android + opt_member(
                        "android"@,
                        opt_android_config_data(self.android),
                    ));
                }
            },
        }
        let ghost before_webpush = deep_entries(members@);
        match &self.webpush {
            Some(c) => {
                push_member(&mut members, "webpush", c.to_json());
                proof {
                    assert(deep_entries(members@) =~= before_webpush + opt_member(
                        "webpush"@,
                        opt_webpush_config_data(self.webpush),
                    ));
                }
            },
            None => {
                proof {
                    assert(deep_entries(members@) =~= before_webpush + opt_member(
                        "webpush"@,
                        opt_webpush_config_data(self.webpush),
                    ));
                }
            },
        }
        let ghost before_apns = deep_entries(members@);
        match &self.apns {
            Some(c) => {
                push_member(&mut members, "apns", c.to_json());
                proof {
                    assert(deep_entries(members@) =~= before_apns + opt_member(
                        "apns"@,
                        opt_apns_config_data(self.apns),
                    ));
                }
            },
            None => {
                proof {
                    assert(deep_entries(members@) =~= before_apns + opt_member(
                        "apns"@,
                        opt_apns_config_data(self.apns),
                    ));
                }
            },
        }
        let ghost before_options = deep_entries(members@);
        match &self.fcm_options {
            Some(o) => {
                push_member(&mut members, "fcm_options", o.to_json());
                proof {
                    assert(deep_entries(members@) =~= before_options + opt_member(
                        "fcm_options"@,
                        opt_fcm_options_data(self.fcm_options),
                    ));
                }
            },
            None => {
                proof {
                    assert(deep_entries(members@) =~= before_options + opt_member(
                        "fcm_options"@,
                        opt_fcm_options_data(self.fcm_options),
                    ));
                }
            },
        }
        self.target.push_wire(&mut members);
        proof {
            assert(deep_entries(members@) =~= self.wire_members());
        }
        JsonValue::Obj(members)
    }

    /// Serializes this message to its wire bytes.
    pub fn to_bytes(&self) -> (r: Vec<u8>)
        ensures
            r@ == crate::json::json_bytes(self.wire()),
    {
        let v = self.to_json();
        v.to_bytes()
    }

    /// Completes the builder-style construction of a message.
    pub fn finalize(self) -> (r: Self)
        ensures
            r == self,
    {
        self
    }
}

/// Whether a `validate_only` flag has its default value and is therefore
/// left out of the envelope.
pub fn is_validate_only_default(b: &bool) -> (r: bool)
    ensures
        r == (*b == false),
{
    *b == false
}

/// The envelope sent to the endpoint: the message under a `message`
/// member, preceded by `validate_only` only when dry-run mode is on.
pub struct MessageWrapper {
    /// Dry-run flag; omitted from the wire form when false.
    pub validate_only: bool,
    /// The message to deliver.
    pub message: Message,
}

impl MessageWrapper {
    /// The wire object of this envelope.
    pub open spec fn wire(self) -> JsonData {
        JsonData::Obj(
            (if self.validate_only {
                seq![("validate_only"@, JsonData::Bool(true))]
            } else {
                Seq::empty()
            }) + seq![("message"@, self.message.wire())],
        )
    }

    /// Wraps a message in the envelope.
    pub fn new(message: Message, dry_run: bool) -> (r: MessageWrapper)
        ensures
            r.validate_only == dry_run,
            r.message == message,
    {
        MessageWrapper { validate_only: dry_run, message }
    }

    /// Lowers this envelope to its wire object.
    pub fn to_json(&self) -> (r: JsonValue)
        ensures
            r.deep() == self.wire(),
    {
        let mut members: Vec<(String, JsonValue)> = Vec::new();
        if self.validate_only {
            push_member(&mut members, "validate_only", JsonValue::Bool(true));
        }
        push_member(&mut members, "message", self.message.to_json());
        proof {
            assert(deep_entries(members@) =~= self.wire()->Obj_0);
        }
        JsonValue::Obj(members)
    }

    /// Serializes this envelope to the bytes of the request body.
    pub fn to_bytes(&self) -> (r: Vec<u8>)
        ensures
            r@ == crate::json::json_bytes(self.wire()),
    {
        let v = self.to_json();
        v.to_bytes()
    }
}

/// What reading the target back from an encoded message object yields:
/// the key and content of the first target member found, trying the
/// token, topic and condition keys in that order; a present key with a
/// non-string value fails the read.
pub open spec fn read_target_spec(d: JsonData) -> Option<(Seq<char>, Seq<char>)> {
    match d.get("token"@) {
        Some(x) => match x {
            JsonData::Str(s) => Some(("token"@, s)),
            _ => None,
        },
        None => match d.get("topic"@) {
            Some(x) => match x {
                JsonData::Str(s) => Some(("topic"@, s)),
                _ => None,
            },
            None => match d.get("condition"@) {
                Some(x) => match x {
                    JsonData::Str(s) => Some(("condition"@, s)),
                    _ => None,
                },
                None => None,
            },
        },
    }
}

/// Reads the delivery target back from an encoded message object.
///
/// This is the response-side counterpart of the flattened target
/// encoding: it recovers the variant from the member key and the value
/// from the member content.
pub fn read_target(v: &JsonValue) -> (r: Option<Target>)
    ensures
        match r {
            Some(t) => read_target_spec(v.deep()) == Some((t.wire_key(), t.wire_value())),
            None => read_target_spec(v.deep()) is None,
        },
{
    match v.get("token") {
        Some(x) => match x.as_str() {
            Some(s) => Some(Target::Token(s.clone())),
            None => None,
        },
        None => match v.get("topic") {
            Some(x) => match x.as_str() {
                Some(s) => Some(Target::Topic(s.clone())),
                None => None,
            },
            None => match v.get("condition") {
                Some(x) => match x.as_str() {
                    Some(s) => Some(Target::Condition(s.clone())),
                    None => None,
                },
                None => None,
            },
        },
    }
}

/// Looking a key up in concatenated members skips a prefix in which the
/// key does not occur.
proof fn lemma_obj_get_append(
    prefix: Seq<(Seq<char>, JsonData)>,
    suffix: Seq<(Seq<char>, JsonData)>,
    key: Seq<char>,
)
    requires
        forall|i: int| 0 <= i < prefix.len() ==> (#[trigger] prefix[i]).0 != key,
    ensures
        obj_get(prefix + suffix, key) == obj_get(suffix, key),
    decreases prefix,
{
    if prefix.len() == 0 {
        assert(prefix + suffix =~= suffix);
    } else {
        assert((prefix + suffix)[0] == prefix[0]);
        assert((prefix + suffix).drop_first() =~= prefix.drop_first() + suffix);
        lemma_obj_get_append(prefix.drop_first(), suffix, key);
    }
}

/// The keys of the optional message fields, none of which is a target
/// key.
proof fn lemma_field_keys_are_not_target_keys(m: Message, key: Seq<char>)
    requires
        key == "token"@ || key == "topic"@ || key == "condition"@,
    ensures
        forall|i: int|
            0 <= i < m.wire_members().len() - 1 ==> (#[trigger] m.wire_members()[i]).0 != key,
        m.wire_members().len() >= 1,
        m.wire_members().last() == m.target.wire_member(),
{
    reveal_strlit("data");
    reveal_strlit("notification");
    reveal_strlit("android");
    reveal_strlit("webpush");
    reveal_strlit("apns");
    reveal_strlit("fcm_options");
    reveal_strlit("token");
    reveal_strlit("topic");
    reveal_strlit("condition");
    let ms = m.wire_members();
    assert forall|i: int| 0 <= i < ms.len() - 1 implies (#[trigger] ms[i]).0 != key by {
        assert(ms[i].0 == "data"@ || ms[i].0 == "notification"@ || ms[i].0 == "android"@
            || ms[i].0 == "webpush"@ || ms[i].0 == "apns"@ || ms[i].0 == "fcm_options"@);
        assert("data"@.len() == 4 && "notification"@.len() == 12 && "android"@.len() == 7
            && "webpush"@.len() == 7 && "apns"@.len() == 4 && "fcm_options"@.len() == 11);
        assert("token"@.len() == 5 && "topic"@.len() == 5 && "condition"@.len() == 9);
    }
}

/// Reading the target back from an encoded message recovers the same
/// variant and value, whatever else the message carries (round trip
/// through the target union).
pub proof fn lemma_target_round_trip(m: Message)
    ensures
        read_target_spec(m.wire()) == Some((m.target.wire_key(), m.target.wire_value())),
{
    reveal_strlit("token");
    reveal_strlit("topic");
    reveal_strlit("condition");
    let ms = m.wire_members();
    let last = seq![m.target.wire_member()];
    lemma_field_keys_are_not_target_keys(m, "token"@);
    lemma_field_keys_are_not_target_keys(m, "topic"@);
    lemma_field_keys_are_not_target_keys(m, "condition"@);
    assert(ms =~= ms.take(ms.len() - 1) + last);
    assert forall|key: Seq<char>|
        key == "token"@ || key == "topic"@ || key == "condition"@ implies obj_get(ms, key)
        == obj_get(last, key) by {
        lemma_obj_get_append(ms.take(ms.len() - 1), last, key);
    }
    assert("token"@ != "topic"@) by {
        assert("token"@[2] != "topic"@[2]);
    }
    assert("token"@ != "condition"@);
    assert("topic"@ != "condition"@);
    let ghost e = last.drop_first();
    assert(e.len() == 0);
    assert(obj_get(e, "token"@) is None);
    assert(obj_get(e, "topic"@) is None);
    match m.target {
        Target::Token(s) => {
            assert(obj_get(last, "token"@) == Some(JsonData::Str(s@)));
        },
        Target::Topic(s) => {
            assert(obj_get(last, "token"@) is None);
            assert(obj_get(last, "topic"@) == Some(JsonData::Str(s@)));
        },
        Target::Condition(s) => {
            assert(obj_get(last, "token"@) is None);
            assert(obj_get(last, "topic"@) is None);
            assert(obj_get(last, "condition"@) == Some(JsonData::Str(s@)));
        },
    }
}

/// A message with only the target set encodes to an object with exactly
/// one member: the flattened target member, keyed by the variant name.
pub proof fn lemma_target_only_wire(m: Message)
    requires
        m.data is None,
        m.notification is None,
        m.android is None,
        m.webpush is None,
        m.apns is None,
        m.fcm_options is None,
    ensures
        m.wire()->Obj_0 =~= seq![m.target.wire_member()],
        m.wire()->Obj_0.len() == 1,
        m.wire()->Obj_0[0].0 == m.target.wire_key(),
{
}

} // verus!
