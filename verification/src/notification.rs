//! The platform-agnostic display notification.

use vstd::prelude::*;

verus! {

use crate::json::JsonData;
use crate::json::JsonValue;
use crate::json::deep_entries;
use crate::json::opt_member;
use crate::json::opt_str_data;
use crate::json::push_opt_str;

/// Basic notification template to use across all platforms.
pub struct Notification {
    /// The notification's title.
    pub title: Option<String>,
    /// The notification's body text.
    pub body: Option<String>,
    /// URL of an image that is downloaded on the device and displayed in
    /// the notification.
    pub image: Option<String>,
}

impl Notification {
    /// The wire object of this notification: absent fields are omitted.
    pub open spec fn wire(self) -> JsonData {
        JsonData::Obj(
            opt_member("title"@, opt_str_data(self.title)) + opt_member(
                "body"@,
                opt_str_data(self.body),
            ) + opt_member("image"@, opt_str_data(self.image)),
        )
    }

    /// Lowers this notification to its wire object.
    pub fn to_json(&self) -> (r: JsonValue)
        ensures
            r.deep() == self.wire(),
    {
        let mut members: Vec<(String, JsonValue)> = Vec::new();
        push_opt_str(&mut members, "title", &self.title);
        push_opt_str(&mut members, "body", &self.body);
        push_opt_str(&mut members, "image", &self.image);
        proof {
            assert(deep_entries(members@) =~= opt_member("title"@, opt_str_data(self.title))
                + opt_member("body"@, opt_str_data(self.body)) + opt_member(
                "image"@,
                opt_str_data(self.image),
            ));
        }
        JsonValue::Obj(members)
    }

    /// Completes the builder-style construction of a notification.
    pub fn finalize(self) -> (r: Self)
        ensures
            r == self,
    {
        self
    }
}

impl Default for Notification {
    /// A notification with every field absent.
    fn default() -> (r: Self)
        ensures
            r.title is None && r.body is None && r.image is None,
    {
        Notification { title: None, body: None, image: None }
    }
}

} // verus!
