//! Session reply texts composed from stored records.

use vstd::prelude::*;

use crate::datetime::{days_before_year, moscow, spec_moscow, UTC_OFFSET_SECONDS};
use crate::post::Post;
use crate::user::{role_name, User};

verus! {

/// The card text of a post: title, content, and for a scheduled or
/// published post the instant, rendered in the fixed civil offset.
pub open spec fn spec_post_text(p: Post) -> Seq<char> {
    let head = p.title@ + "\n"@ + p.content@;
    if p.status is Pending {
        head + "\nPublish at: "@ + spec_moscow(p.publish_datetime.unwrap() as int)
    } else if p.status is Published {
        head + "\nPublished at: "@ + spec_moscow(p.publish_datetime.unwrap() as int)
    } else {
        head
    }
}

/// Composes the card text of a post for a session reply.
pub fn post_message_text(p: &Post) -> (r: String)
    requires
        p.status is Pending ==> p.publish_datetime is Some,
        p.status is Published ==> p.publish_datetime is Some,
        p.publish_datetime matches Some(d) ==> d + UTC_OFFSET_SECONDS >= 0 && d
            + UTC_OFFSET_SECONDS < days_before_year(10000) * 86400,
    ensures
        r@ == spec_post_text(*p),
{
    let mut s = p.title.clone();
    s.append("\n");
    s.append(p.content.as_str());
    match p.status.as_i32() {
        1 => {
            s.append("\nPublish at: ");
            let d = match p.publish_datetime {
                Some(d) => d,
                None => 0,
            };
            s.append(moscow(d).as_str());
        },
        2 => {
            s.append("\nPublished at: ");
            let d = match p.publish_datetime {
                Some(d) => d,
                None => 0,
            };
            s.append(moscow(d).as_str());
        },
        _ => {},
    }
    s
}

/// The display name of a user: the first name, and the last name after a
/// space when there is one.
pub open spec fn spec_user_name(u: User) -> Seq<char> {
    match u.last_name {
        Some(l) => u.first_name@ + " "@ + l@,
        None => u.first_name@,
    }
}

/// Composes the display name of a user.
pub fn user_display_name(u: &User) -> (r: String)
    ensures
        r@ == spec_user_name(*u),
{
    let mut s = u.first_name.clone();
    if let Some(l) = &u.last_name {
        s.append(" ");
        s.append(l.as_str());
    }
    s
}

/// The user card text: the display name, a separator, and the role name.
pub open spec fn spec_user_card(u: User) -> Seq<char> {
    spec_user_name(u) + ": "@ + role_name(u.role)
}

/// Composes the user card text for the admin's user listing.
pub fn user_card_text(u: &User) -> (r: String)
    ensures
        r@ == spec_user_card(*u),
{
    let mut s = user_display_name(u);
    s.append(": ");
    s.append(u.role.name());
    s
}

} // verus!
