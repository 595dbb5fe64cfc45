use crate::text::{lowercase_of, push_char, to_lowercase};
use vstd::prelude::*;

verus! {

/// The longest message body, in characters, that is handed to the markup
/// parser and on to the chat platform.
pub const MESSAGE_LIMIT: usize = 2000;

/// What the feed reader answers when an item was marked as read.
#[derive(Clone, Debug, PartialEq, Eq)]
pub struct SelfossItemMarkedReadResponse {}

/// A point in time: seconds since the Unix epoch in UTC, and the nanoseconds
/// past that second.
#[derive(Clone, Copy, Debug, PartialEq, Eq)]
pub struct Timestamp {
    pub seconds: i64,
    pub nanoseconds: u32,
}

/// One unread article of the feed reader.
#[derive(Clone, Debug, PartialEq, Eq)]
pub struct SelfossItem {
    pub title: String,
    pub sourcetitle: String,
    pub content: String,
    pub datetime: Timestamp,
    pub id: u64,
}

/// The mathematical value of a `SelfossItem`.
pub ghost struct ItemView {
    pub title: Seq<char>,
    pub sourcetitle: Seq<char>,
    pub content: Seq<char>,
    pub datetime: Timestamp,
    pub id: u64,
}

impl View for SelfossItem {
    type V = ItemView;

    open spec fn view(&self) -> ItemView {
        ItemView {
            title: self.title@,
            sourcetitle: self.sourcetitle@,
            content: self.content@,
            datetime: self.datetime,
            id: self.id,
        }
    }
}

/// The text content of an HTML fragment: what the markup parser finds when
/// it reads `fragment` as the inside of a `body` element and the text nodes
/// of the resulting tree are joined in document order.
pub uninterp spec fn fragment_text_of(fragment: Seq<char>) -> Seq<char>;

/// The message body that a raw content stands for.
pub open spec fn message_body_of(content: Seq<char>) -> Seq<char> {
    fragment_text_of(truncated(content, MESSAGE_LIMIT as nat))
}

/// What replaces a space or a period in a channel name.
pub open spec fn hyphen_for(c: char) -> char {
    if c == ' ' || c == '.' {
        '-'
    } else {
        c
    }
}

/// A text with every space and every period replaced by a hyphen.
pub open spec fn hyphenated(s: Seq<char>) -> Seq<char> {
    s.map_values(|c: char| hyphen_for(c))
}

/// The channel name that a source title stands for.
pub open spec fn channel_name_of(title: Seq<char>) -> Seq<char> {
    lowercase_of(hyphenated(title))
}

/// The first `max` characters of a text, or all of it if it is shorter.
pub open spec fn truncated(s: Seq<char>, max: nat) -> Seq<char> {
    if s.len() <= max {
        s
    } else {
        s.take(max as int)
    }
}

/// Cuts `s` down to its first `max_chars` characters, never splitting one.
pub fn truncate(s: &str, max_chars: usize) -> (r: &str)
    ensures
        r@ == truncated(s@, max_chars as nat),
{
    if s.unicode_len() <= max_chars {
        s
    } else {
        s.substring_char(0, max_chars)
    }
}

/// Replaces every space and every period of `s` by a hyphen.
pub fn hyphenate(s: &str) -> (r: String)
    ensures
        r@ == hyphenated(s@),
{
    let mut out = String::new();
    for c in it: s.chars()
        invariant
            it.seq() == s@,
            out@ == hyphenated(s@.take(it.index())),
    {
        let d: char = if c == ' ' || c == '.' { '-' } else { c };
        push_char(&mut out, d);
    }
    out
}

/// `scraper::Html::parse_fragment`, then `root_element().text()` joined into
/// one string. The parser recovers from every malformed input, so there is
/// no error to report; its buffers hold no more than 4 GiB, far above the
/// `MESSAGE_LIMIT` characters asked for here.
#[verifier::external_body]
fn fragment_text(fragment: &str) -> (text: String)
    requires
        fragment@.len() <= MESSAGE_LIMIT,
    ensures
        text@ == fragment_text_of(fragment@),
{
    scraper::Html::parse_fragment(fragment).root_element().text().collect()
}

/// Derives the name of the channel that items of the feed `source_title`
/// go to: spaces and periods become hyphens, then the text is lowercased.
pub fn derive_channel_name(source_title: &str) -> (name: String)
    ensures
        name@ == channel_name_of(source_title@),
{
    let dashed = hyphenate(source_title);
    to_lowercase(dashed.as_str())
}

/// Derives the message body of a raw content: its first `MESSAGE_LIMIT`
/// characters, with the markup stripped.
pub fn derive_message_body(raw_content: &str) -> (body: String)
    ensures
        body@ == message_body_of(raw_content@),
{
    let head = truncate(raw_content, MESSAGE_LIMIT);
    fragment_text(head)
}

impl SelfossItem {
    /// The name of the channel that this item belongs to.
    pub fn get_discord_channel_name(self) -> (name: String)
        ensures
            name@ == channel_name_of(self@.sourcetitle),
    {
        derive_channel_name(self.sourcetitle.as_str())
    }

    /// The body of the message that relays this item.
    pub fn get_discord_message_content(self) -> (body: String)
        ensures
            body@ == message_body_of(self@.content),
    {
        derive_message_body(self.content.as_str())
    }
}

/// Whether a character is one of those that a channel name shows as a
/// hyphen: a space, a period, or a hyphen itself.
pub open spec fn is_separator(c: char) -> bool {
    c == ' ' || c == '.' || c == '-'
}

/// Whether two texts differ at most in which separator stands where.
pub open spec fn same_up_to_separators(a: Seq<char>, b: Seq<char>) -> bool {
    &&& a.len() == b.len()
    &&& forall|i: int|
        0 <= i < a.len() ==> a[i] == b[i] || (is_separator(#[trigger] a[i]) && is_separator(b[i]))
}

/// A hyphenated text is as long as the text it was made from, holds no
/// space and no period, and hyphenating it again changes nothing.
pub proof fn lemma_hyphenated_is_stable(s: Seq<char>)
    ensures
        hyphenated(s).len() == s.len(),
        forall|i: int|
            0 <= i < s.len() ==> (#[trigger] hyphenated(s)[i]) != ' ' && hyphenated(s)[i] != '.',
        hyphenated(hyphenated(s)) == hyphenated(s),
{
}

/// Two texts have the same hyphenated form exactly if they differ at most
/// in which separator stands where.
pub proof fn lemma_hyphenated_forms_agree(a: Seq<char>, b: Seq<char>)
    ensures
        hyphenated(a) == hyphenated(b) <==> same_up_to_separators(a, b),
{
    if same_up_to_separators(a, b) {
        assert(hyphenated(a) =~= hyphenated(b));
    }
    if hyphenated(a) == hyphenated(b) {
        assert(hyphenated(a).len() == a.len() && hyphenated(b).len() == b.len());
        assert forall|i: int| 0 <= i < a.len() implies a[i] == b[i] || (is_separator(
            #[trigger] a[i],
        ) && is_separator(b[i])) by {
            assert(hyphenated(a)[i] == hyphenated(b)[i]);
        }
    }
}

/// Two source titles that come to the same hyphenated lowercase form have
/// the same channel name; so do two titles that differ only in where they
/// have a space, a period or a hyphen.
pub proof fn lemma_channel_name_of_collapsed_form(a: Seq<char>, b: Seq<char>)
    requires
        lowercase_of(hyphenated(a)) == lowercase_of(hyphenated(b)) || same_up_to_separators(a, b),
    ensures
        channel_name_of(a) == channel_name_of(b),
{
    lemma_hyphenated_forms_agree(a, b);
}

/// What the markup parser is given of a raw content is a prefix of it of at
/// most `MESSAGE_LIMIT` characters, and all of it if it is no longer than
/// that.
pub proof fn lemma_message_body_reads_bounded_prefix(content: Seq<char>)
    ensures
        ({
            let head = truncated(content, MESSAGE_LIMIT as nat);
            &&& message_body_of(content) == fragment_text_of(head)
            &&& head.len() <= MESSAGE_LIMIT
            &&& head.is_prefix_of(content)
            &&& content.len() <= MESSAGE_LIMIT ==> head == content
            &&& truncated(head, MESSAGE_LIMIT as nat) == head
        }),
{
}

} // verus!
