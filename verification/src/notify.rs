//! Notification builder: the exact structured message announcing a newly
//! detected version. Delivering it is the caller's business; failure to
//! deliver never blocks archival.

use vstd::prelude::*;

verus! {

/// One named field of a notification.
pub struct NotificationField {
    pub name: String,
    pub value: String,
    pub inline: bool,
}

/// A structured message: a title, a description, a color code and named
/// fields.
pub struct Notification {
    pub title: String,
    pub description: String,
    pub color: u32,
    pub fields: Vec<NotificationField>,
}

/// The markdown-style link the notification carries to the resource.
pub open spec fn spec_view_link(resource_path: Seq<char>) -> Seq<char> {
    "[View]("@ + resource_path + ")"@
}

/// What the new-version notification says: its fixed title, description and
/// color, and its four fields — website host, site key, version, and a link
/// to the resource.
pub open spec fn spec_new_version_notification(
    n: Notification,
    host: Seq<char>,
    sitekey: Seq<char>,
    version: Seq<char>,
    resource_path: Seq<char>,
) -> bool {
    &&& n.title@ == "hCaptcha Monitor"@
    &&& n.description@ == "New hCaptcha version detected."@
    &&& n.color == 0x2B2D31
    &&& n.fields@.len() == 4
    &&& n.fields@[0].name@ == "Website"@ && n.fields@[0].value@ == host && !n.fields@[0].inline
    &&& n.fields@[1].name@ == "Sitekey"@ && n.fields@[1].value@ == sitekey && !n.fields@[1].inline
    &&& n.fields@[2].name@ == "Version"@ && n.fields@[2].value@ == version && !n.fields@[2].inline
    &&& n.fields@[3].name@ == "Resource URL"@ && n.fields@[3].value@ == spec_view_link(
        resource_path,
    ) && !n.fields@[3].inline
}

/// Builds the notification for a newly detected version.
pub fn new_version_notification(host: &str, sitekey: &str, version: &str, resource_path: &str) -> (n:
    Notification)
    ensures
        spec_new_version_notification(n, host@, sitekey@, version@, resource_path@),
{
    let mut link = String::from_str("[View](");
    link.append(resource_path);
    link.append(")");
    proof {
        assert(link@ =~= spec_view_link(resource_path@));
    }
    let mut fields: Vec<NotificationField> = Vec::new();
    fields.push(
        NotificationField { name: String::from_str("Website"), value: host.to_owned(), inline: false },
    );
    fields.push(
        NotificationField {
            name: String::from_str("Sitekey"),
            value: sitekey.to_owned(),
            inline: false,
        },
    );
    fields.push(
        NotificationField {
            name: String::from_str("Version"),
            value: version.to_owned(),
            inline: false,
        },
    );
    fields.push(
        NotificationField { name: String::from_str("Resource URL"), value: link, inline: false },
    );
    Notification {
        title: String::from_str("hCaptcha Monitor"),
        description: String::from_str("New hCaptcha version detected."),
        color: 0x2B2D31,
        fields,
    }
}

} // verus!
