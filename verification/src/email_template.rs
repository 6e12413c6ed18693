//! The frame that every newsletter email is set in: the content, then a
//! footer that says why the reader got it and how to unsubscribe.

use vstd::prelude::*;
use vstd::string::*;

verus! {

/// The path of the unsubscribe route, up to the subscriber's id.
pub const UNSUBSCRIBE_PATH: &'static str = "/subscriptions/unsubscribe?id=";

/// What stands before the content in the HTML version.
pub const HTML_HEAD: &'static str =
    "\n        <div style=\"font-family: sans-serif; max-width: 600px; margin: 0 auto;\">\n            ";

/// What stands between the content and the unsubscribe link in the HTML
/// version.
pub const HTML_MIDDLE: &'static str =
    "\n    \n            <hr style=\"border: none; border-top: 1px solid #ddd; margin: 20px 0;\"/>\n    \n            <footer style=\"font-size: 12px; color: #666;\">\n                <p>\n                    You're receiving this because you subscribed to Joe Hasson's Blog.<br/>\n                    <a href=\"";

/// What stands after the unsubscribe link in the HTML version.
pub const HTML_TAIL: &'static str =
    "\" style=\"color: #666;\">Unsubscribe</a>\n                </p>\n            </footer>\n        </div>";

/// What stands between the content and the unsubscribe link in the plain
/// version.
pub const TEXT_MIDDLE: &'static str =
    "\n\n-------------------------------------------\nYou're receiving this because you subscribed to Joe Hasson's Blog.\nUnsubscribe: ";

/// What stands after the unsubscribe link in the plain version.
pub const TEXT_TAIL: &'static str = "\n";

/// The sixteen hexadecimal digits, lower case.
pub open spec fn hex_digits() -> Seq<char> {
    "0123456789abcdef"@
}

/// The number of hyphens that stand before position `i` of an id's text.
pub open spec fn hyphens_before(i: int) -> int {
    (if i > 8 {
        1int
    } else {
        0
    }) + (if i > 13 {
        1int
    } else {
        0
    }) + (if i > 18 {
        1int
    } else {
        0
    }) + (if i > 23 {
        1int
    } else {
        0
    })
}

/// The `k`-th of the 32 hexadecimal digits of `id`, the most significant
/// being the first.
pub open spec fn hex_digit_at(id: u128, k: int) -> char {
    hex_digits()[((id >> ((4 * (31 - k)) as u128)) & 0xf) as int]
}

/// An id as text: its 32 hexadecimal digits in lower case, most significant
/// first, in groups of 8, 4, 4, 4 and 12 with a hyphen between groups.
pub open spec fn uuid_text(id: u128) -> Seq<char> {
    Seq::new(
        36,
        |i: int|
            if i == 8 || i == 13 || i == 18 || i == 23 {
                '-'
            } else {
                hex_digit_at(id, i - hyphens_before(i))
            },
    )
}

/// Writes `id` as `uuid::Uuid` displays it (`Uuid::from_u128`, then
/// `to_string`): hyphenated lower-case hexadecimal, the most significant
/// digit first.
#[verifier::external_body]
fn uuid_to_text(id: u128) -> (text: String)
    ensures
        text@ == uuid_text(id),
{
    uuid::Uuid::from_u128(id).to_string()
}

/// The address at which subscriber `id` unsubscribes from the site at `base`.
pub open spec fn unsubscribe_link_text(base: Seq<char>, id: u128) -> Seq<char> {
    base + UNSUBSCRIBE_PATH@ + uuid_text(id)
}

/// The HTML version of an email with content `html` and unsubscribe link
/// `link`.
pub open spec fn html_version_text(link: Seq<char>, html: Seq<char>) -> Seq<char> {
    HTML_HEAD@ + html + HTML_MIDDLE@ + link + HTML_TAIL@
}

/// The plain version of an email with content `text` and unsubscribe link
/// `link`.
pub open spec fn text_version_text(link: Seq<char>, text: Seq<char>) -> Seq<char> {
    text + TEXT_MIDDLE@ + link + TEXT_TAIL@
}

/// The link that unsubscribes `subscriber_id` on the site at `app_base_url`.
pub fn unsubscribe_link(app_base_url: &str, subscriber_id: u128) -> (link: String)
    ensures
        link@ == unsubscribe_link_text(app_base_url@, subscriber_id),
{
    let mut link = String::from_str(app_base_url);
    link.append(UNSUBSCRIBE_PATH);
    link.append(uuid_to_text(subscriber_id).as_str());
    link
}

/// Sets `html_content` in the HTML frame, with the footer's link
/// unsubscribing `subscriber_id` on the site at `app_base_url`.
pub fn html_version(app_base_url: &str, subscriber_id: u128, html_content: &str) -> (html: String)
    ensures
        html@ == html_version_text(
            unsubscribe_link_text(app_base_url@, subscriber_id),
            html_content@,
        ),
{
    let link = unsubscribe_link(app_base_url, subscriber_id);
    let mut html = String::from_str(HTML_HEAD);
    html.append(html_content);
    html.append(HTML_MIDDLE);
    html.append(link.as_str());
    html.append(HTML_TAIL);
    html
}

/// Sets `text_content` in the plain frame, with the footer's link
/// unsubscribing `subscriber_id` on the site at `app_base_url`.
pub fn text_version(app_base_url: &str, subscriber_id: u128, text_content: &str) -> (text: String)
    ensures
        text@ == text_version_text(
            unsubscribe_link_text(app_base_url@, subscriber_id),
            text_content@,
        ),
{
    let link = unsubscribe_link(app_base_url, subscriber_id);
    let mut text = String::from_str(text_content);
    text.append(TEXT_MIDDLE);
    text.append(link.as_str());
    text.append(TEXT_TAIL);
    text
}

} // verus!
