//! QQ messages (OneBot events) rendered as text for IRC.
use vstd::hash_map::StringHashMap;
use vstd::prelude::*;
use vstd::string::*;

use crate::irc_proto::rvs_sanitize_nick;
use crate::text::{
    all_digits, concat2, concat3, digits_value, drop_whitespace, i64_to_decimal, nick_chars_of,
    parse_digits, signed_decimal, split_on, split_on_char, str_chars, str_eq, strs_view, trim,
    trim_str, without_whitespace,
};

verus! {

/// A QQ message as the IRC side shows it: its lines and who sent it where.
#[derive(Debug, Clone)]
pub enum RenderedOnebotMessageOf<S, L> {
    Group { content: L, sender_id: i64, sender_name: S, group_id: i64 },
    Private { content: L, sender_id: i64, sender_name: S },
}

pub type RenderedOnebotMessage = RenderedOnebotMessageOf<String, Vec<String>>;

pub type RenderedOnebotMessageView = RenderedOnebotMessageOf<Seq<char>, Seq<Seq<char>>>;

impl DeepView for RenderedOnebotMessageOf<String, Vec<String>> {
    type V = RenderedOnebotMessageView;

    open spec fn deep_view(&self) -> RenderedOnebotMessageView {
        match self {
            RenderedOnebotMessageOf::Group { content, sender_id, sender_name, group_id } =>
                RenderedOnebotMessageOf::Group {
                content: strs_view(content@),
                sender_id: *sender_id,
                sender_name: sender_name@,
                group_id: *group_id,
            },
            RenderedOnebotMessageOf::Private { content, sender_id, sender_name } =>
                RenderedOnebotMessageOf::Private {
                content: strs_view(content@),
                sender_id: *sender_id,
                sender_name: sender_name@,
            },
        }
    }
}

// ---------------------------------------------------------------------------
// QQ emoji
// ---------------------------------------------------------------------------
/// A QQ emoji: its id and what it shows.
#[derive(Debug, Clone)]
pub struct EmojiInfo {
    pub emoji_id: String,
    pub describe: String,
}

/// The known QQ emoji, by id.
pub struct EmojiTable {
    entries: StringHashMap<EmojiInfo>,
}

impl View for EmojiTable {
    type V = Map<Seq<char>, Seq<char>>;

    /// Each known id, with the description of its emoji.
    closed spec fn view(&self) -> Map<Seq<char>, Seq<char>> {
        self.entries@.map_values(|info: EmojiInfo| info.describe@)
    }
}

impl EmojiTable {
    pub fn new() -> (t: EmojiTable)
        ensures
            t@ == Map::<Seq<char>, Seq<char>>::empty(),
    {
        let t = EmojiTable { entries: StringHashMap::new() };
        assert(t@ =~= Map::<Seq<char>, Seq<char>>::empty());
        t
    }

    /// Records `info` under `id`, in place of what was there.
    pub fn insert(&mut self, id: String, info: EmojiInfo)
        ensures
            final(self)@ == old(self)@.insert(id@, info.describe@),
    {
        let ghost d = info.describe@;
        self.entries.insert(id, info);
        assert(final(self)@ =~= old(self)@.insert(id@, d));
    }
}

/// The description of emoji `id`, or `id` itself when it is not known.
pub open spec fn emoji_name_view(table: Map<Seq<char>, Seq<char>>, id: Seq<char>) -> Seq<char> {
    if table.contains_key(id) {
        table[id]
    } else {
        id
    }
}

pub fn rvs_lookup_emoji_name<'a>(emoji_map: &'a EmojiTable, id: &'a str) -> (r: &'a str)
    ensures
        r@ == emoji_name_view(emoji_map@, id@),
{
    match emoji_map.entries.get(id) {
        Some(info) => info.describe.as_str(),
        None => id,
    }
}

// ---------------------------------------------------------------------------
// Message segments
// ---------------------------------------------------------------------------
/// The string-valued fields of a message segment's data, by name.
pub struct SegmentData {
    fields: StringHashMap<String>,
}

impl View for SegmentData {
    type V = Map<Seq<char>, Seq<char>>;

    closed spec fn view(&self) -> Map<Seq<char>, Seq<char>> {
        self.fields@.map_values(|v: String| v@)
    }
}

impl SegmentData {
    pub fn new() -> (d: SegmentData)
        ensures
            d@ == Map::<Seq<char>, Seq<char>>::empty(),
    {
        let d = SegmentData { fields: StringHashMap::new() };
        assert(d@ =~= Map::<Seq<char>, Seq<char>>::empty());
        d
    }

    /// Sets field `key` to `value`.
    pub fn insert(&mut self, key: String, value: String)
        ensures
            final(self)@ == old(self)@.insert(key@, value@),
    {
        let ghost v = value@;
        self.fields.insert(key, value);
        assert(final(self)@ =~= old(self)@.insert(key@, v));
    }

    /// The string value of field `key`, if it has one.
    pub fn get_str<'a>(&'a self, key: &str) -> (r: Option<&'a str>)
        ensures
            match r {
                Some(v) => self@.contains_key(key@) && v@ == self@[key@],
                None => !self@.contains_key(key@),
            },
    {
        match self.fields.get(key) {
            Some(v) => Some(v.as_str()),
            None => None,
        }
    }
}

/// The string value of field `key`, or the empty string.
pub open spec fn field_or_empty(data: Map<Seq<char>, Seq<char>>, key: Seq<char>) -> Seq<char> {
    if data.contains_key(key) {
        data[key]
    } else {
        Seq::empty()
    }
}

/// The text of a segment that needs no outside lookup: text as it is, a face
/// by its emoji's name, any other kind by its name in brackets. Images and
/// mentions need a lookup, so they give `None`.
pub open spec fn pure_segment_view(
    table: Map<Seq<char>, Seq<char>>,
    type_: Seq<char>,
    data: Map<Seq<char>, Seq<char>>,
) -> Option<Seq<char>> {
    if type_ == "text"@ {
        Some(field_or_empty(data, "text"@))
    } else if type_ == "face"@ {
        Some("[face:"@ + emoji_name_view(table, field_or_empty(data, "id"@)) + "]"@)
    } else if type_ == "image"@ || type_ == "at"@ {
        None
    } else {
        Some("["@ + type_ + "]"@)
    }
}

pub fn rvs_render_pure_segment(emoji_map: &EmojiTable, type_: &str, data: &SegmentData) -> (r:
    Option<String>)
    ensures
        match r {
            Some(s) => pure_segment_view(emoji_map@, type_@, data@) == Some(s@),
            None => pure_segment_view(emoji_map@, type_@, data@) is None,
        },
{
    proof {
        reveal_strlit("");
    }
    if str_eq(type_, "text") {
        let text = match data.get_str("text") {
            Some(t) => t,
            None => "",
        };
        assert(text@ == field_or_empty(data@, "text"@));
        Some(text.to_owned())
    } else if str_eq(type_, "face") {
        let id = match data.get_str("id") {
            Some(t) => t,
            None => "",
        };
        assert(id@ == field_or_empty(data@, "id"@));
        Some(concat3("[face:", rvs_lookup_emoji_name(emoji_map, id), "]"))
    } else if str_eq(type_, "image") || str_eq(type_, "at") {
        None
    } else {
        Some(concat3("[", type_, "]"))
    }
}

/// The rendered segments of a message, one after the other.
pub open spec fn joined_view(parts: Seq<Seq<char>>) -> Seq<char>
    decreases parts.len(),
{
    if parts.len() == 0 {
        Seq::empty()
    } else {
        joined_view(parts.drop_last()) + parts.last()
    }
}

/// The rendered segments of a message, one after the other.
pub fn rvs_join_segments(parts: &Vec<String>) -> (r: String)
    ensures
        r@ == joined_view(strs_view(parts@)),
{
    let mut r = String::new();
    let mut i: usize = 0;
    while i < parts.len()
        invariant
            i <= parts.len(),
            r@ == joined_view(strs_view(parts@).take(i as int)),
        decreases parts.len() - i,
    {
        r.append(parts[i].as_str());
        assert(strs_view(parts@).take(i + 1).drop_last() =~= strs_view(parts@).take(i as int));
        i += 1;
    }
    assert(strs_view(parts@).take(i as int) =~= strs_view(parts@));
    r
}

/// A note in place of an image: `[image:<label>]`.
pub open spec fn image_note_view(label: Seq<char>) -> Seq<char> {
    "[image:"@ + label + "]"@
}

/// A note in place of an image: `[image:<label>]`.
pub fn rvs_image_note(label: &str) -> (r: String)
    ensures
        r@ == image_note_view(label@),
{
    concat3("[image:", label, "]")
}

/// After asking the QQ side for an image: the file it was saved to, or the
/// note that stands in its place when the reply names no file or the request
/// failed (with the failure's text).
pub open spec fn fetched_image_view(fetch: Result<Option<Seq<char>>, Seq<char>>) -> Result<
    Seq<char>,
    Seq<char>,
> {
    match fetch {
        Ok(Some(path)) => Ok(path),
        Ok(None) => Err(image_note_view("no-path"@)),
        Err(e) => Err(image_note_view("fetch-error:"@ + e)),
    }
}

pub fn rvs_fetched_image_path(fetch: Result<Option<&str>, &str>) -> (r: Result<String, String>)
    ensures
        outcome_view(r) == fetched_image_view(
            match fetch {
                Ok(Some(p)) => Ok(Some(p@)),
                Ok(None) => Ok(None),
                Err(e) => Err(e@),
            },
        ),
{
    match fetch {
        Ok(Some(path)) => Ok(path.to_owned()),
        Ok(None) => Err(rvs_image_note("no-path")),
        Err(e) => Err(rvs_image_note(concat2("fetch-error:", e).as_str())),
    }
}

// ---------------------------------------------------------------------------
// Names
// ---------------------------------------------------------------------------
/// The fields of a QQ user's profile that names are taken from (group title,
/// group card, nickname), each when it is a string.
pub struct MemberInfo {
    pub title: Option<String>,
    pub card: Option<String>,
    pub nickname: Option<String>,
}

/// An optional field, trimmed; the empty string when it is missing.
pub open spec fn trimmed_field(f: Option<String>) -> Seq<char> {
    match f {
        Some(s) => trim(s@),
        None => Seq::empty(),
    }
}

fn trimmed_field_of(f: &Option<String>) -> (r: String)
    ensures
        r@ == trimmed_field(*f),
{
    match f {
        Some(s) => trim_str(s.as_str()),
        None => String::new(),
    }
}

/// The name to show for a group member: the group card if there is one, else
/// the nickname, else `fallback`.
pub open spec fn display_name_view(info: MemberInfo, fallback: Seq<char>) -> Seq<char> {
    if trimmed_field(info.card).len() > 0 {
        trimmed_field(info.card)
    } else if trimmed_field(info.nickname).len() > 0 {
        trimmed_field(info.nickname)
    } else {
        fallback
    }
}

pub fn rvs_pick_display_name(info: &MemberInfo, fallback: &str) -> (r: String)
    ensures
        r@ == display_name_view(*info, fallback@),
{
    let card = trimmed_field_of(&info.card);
    if !card.as_str().is_empty() {
        return card;
    }
    let nick = trimmed_field_of(&info.nickname);
    if !nick.as_str().is_empty() {
        return nick;
    }
    fallback.to_owned()
}

/// The IRC nickname of a group member: `【title】card` when both are set, else
/// the card, else the nickname, with whitespace removed; `None` when nothing
/// is left.
pub open spec fn group_sender_name_view(info: MemberInfo) -> Option<Seq<char>> {
    let title = trimmed_field(info.title);
    let card = trimmed_field(info.card);
    let nick = trimmed_field(info.nickname);
    let raw = if title.len() > 0 && card.len() > 0 {
        Some("【"@ + title + "】"@ + card)
    } else if card.len() > 0 {
        Some(card)
    } else if nick.len() > 0 {
        Some(nick)
    } else {
        None
    };
    match raw {
        Some(r) => if without_whitespace(r).len() > 0 {
            Some(without_whitespace(r))
        } else {
            None
        },
        None => None,
    }
}

pub fn rvs_extract_group_sender_name(info: &MemberInfo) -> (r: Option<String>)
    ensures
        match r {
            Some(s) => group_sender_name_view(*info) == Some(s@),
            None => group_sender_name_view(*info) is None,
        },
{
    let title = trimmed_field_of(&info.title);
    let card = trimmed_field_of(&info.card);
    let nick = trimmed_field_of(&info.nickname);
    let raw = if !title.as_str().is_empty() && !card.as_str().is_empty() {
        let mut raw = "【".to_owned();
        raw.append(title.as_str());
        raw.append("】");
        raw.append(card.as_str());
        raw
    } else if !card.as_str().is_empty() {
        card
    } else if !nick.as_str().is_empty() {
        nick
    } else {
        return None;
    };
    let sanitized = drop_whitespace(&str_chars(raw.as_str()));
    if sanitized.as_str().is_empty() {
        None
    } else {
        Some(sanitized)
    }
}

/// `sanitized`, or the sender's id in decimal when it is empty.
pub open spec fn sender_name_view(sanitized: Seq<char>, fallback_id: int) -> Seq<char> {
    if sanitized.len() == 0 {
        signed_decimal(fallback_id)
    } else {
        sanitized
    }
}

pub fn rvs_pick_sender_name(sanitized: &str, fallback_id: i64) -> (r: String)
    ensures
        r@ == sender_name_view(sanitized@, fallback_id as int),
{
    if sanitized.is_empty() {
        i64_to_decimal(fallback_id)
    } else {
        sanitized.to_owned()
    }
}

/// The lines of `content`, split at each `'\n'`.
pub fn rvs_split_lines(content: &str) -> (r: Vec<String>)
    ensures
        strs_view(r@) == split_on(content@, '\n'),
{
    split_on_char(content, '\n')
}

/// A QQ id as `str::parse::<i64>` reads it: an optional sign, then at least one
/// digit, within the range of `i64`.
pub open spec fn parse_i64_view(s: Seq<char>) -> Option<i64> {
    let signed = s.len() > 0 && (s[0] == '+' || s[0] == '-');
    let body = if signed {
        s.drop_first()
    } else {
        s
    };
    let negative = signed && s[0] == '-';
    if body.len() > 0 && all_digits(body) {
        if negative && digits_value(body) <= 0x8000_0000_0000_0000 {
            Some((-digits_value(body)) as i64)
        } else if !negative && digits_value(body) <= i64::MAX {
            Some(digits_value(body) as i64)
        } else {
            None
        }
    } else {
        None
    }
}

/// `s` read as an `i64`, as `str::parse` reads it.
pub fn rvs_parse_i64(s: &str) -> (r: Option<i64>)
    ensures
        r == parse_i64_view(s@),
{
    let chars = str_chars(s);
    let signed = chars.len() > 0 && (chars[0] == '+' || chars[0] == '-');
    let negative = signed && chars[0] == '-';
    let start: usize = if signed {
        1
    } else {
        0
    };
    assert(signed == (s@.len() > 0 && (s@[0] == '+' || s@[0] == '-')));
    let ghost body_view = if signed {
        s@.drop_first()
    } else {
        s@
    };
    assert(body_view =~= chars@.subrange(start as int, chars@.len() as int));
    let mut body: Vec<char> = Vec::new();
    let mut i = start;
    while i < chars.len()
        invariant
            start <= i <= chars.len(),
            body_view == chars@.subrange(start as int, chars@.len() as int),
            !all_digits(body_view) ==> parse_i64_view(s@) is None,
            body@ == chars@.subrange(start as int, i as int),
            all_digits(body@),
        decreases chars.len() - i,
    {
        let c = chars[i];
        if !('0' <= c && c <= '9') {
            assert(body_view[i - start] == c);
            assert(!all_digits(body_view));
            assert(parse_i64_view(s@) is None);
            return None;
        }
        body.push(c);
        i += 1;
        assert(body@ =~= chars@.subrange(start as int, i as int));
    }
    assert(body@ =~= body_view);
    if body.len() == 0 {
        return None;
    }
    if negative {
        match parse_digits(&body, 0x8000_0000_0000_0000u64) {
            Some(v) => Some((0i128 - v as i128) as i64),
            None => None,
        }
    } else {
        match parse_digits(&body, i64::MAX as u64) {
            Some(v) => Some(v as i64),
            None => None,
        }
    }
}

/// The name that an `@` mention of `qq` shows: the member's display name when
/// the group lookup gave one, else the QQ nickname when it is not empty, else
/// `qq` itself.
pub open spec fn at_mention_name_view(
    qq: Seq<char>,
    member: Option<MemberInfo>,
    stranger_nickname: Option<Seq<char>>,
) -> Seq<char> {
    match member {
        Some(info) => display_name_view(info, qq),
        None => match stranger_nickname {
            Some(n) => if n.len() > 0 {
                n
            } else {
                qq
            },
            None => qq,
        },
    }
}

pub fn rvs_at_mention_name(
    qq: &str,
    member: Option<&MemberInfo>,
    stranger_nickname: Option<&str>,
) -> (r: String)
    ensures
        r@ == at_mention_name_view(
            qq@,
            match member {
                Some(m) => Some(*m),
                None => None,
            },
            match stranger_nickname {
                Some(n) => Some(n@),
                None => None,
            },
        ),
{
    match member {
        Some(info) => rvs_pick_display_name(info, qq),
        None => match stranger_nickname {
            Some(n) => if !n.is_empty() {
                n.to_owned()
            } else {
                qq.to_owned()
            },
            None => qq.to_owned(),
        },
    }
}

/// `[at:<name>]`.
pub fn rvs_at_mention_text(name: &str) -> (r: String)
    ensures
        r@ == "[at:"@ + name@ + "]"@,
{
    concat3("[at:", name, "]")
}

// ---------------------------------------------------------------------------
// Whole messages
// ---------------------------------------------------------------------------
impl RenderedOnebotMessageOf<String, Vec<String>> {
    /// A private message from `sender_id`, named by its cleaned nickname (or its
    /// id when nothing is left), with the rendered text split into lines.
    pub fn rvs_private_from_parts(nickname: &str, sender_id: i64, rendered: &str) -> (r:
        RenderedOnebotMessage)
        ensures
            r.deep_view() == (RenderedOnebotMessageOf::Private {
                content: split_on(rendered@, '\n'),
                sender_id,
                sender_name: sender_name_view(nick_chars_of(nickname@), sender_id as int),
            }),
    {
        let sender_name = rvs_pick_sender_name(rvs_sanitize_nick(nickname).as_str(), sender_id);
        let content = rvs_split_lines(rendered);
        RenderedOnebotMessageOf::Private { content, sender_id, sender_name }
    }

    /// A message in group `group_id` from `sender_id`, named by `sender_name`
    /// (its id when there is none), with the rendered text split into lines.
    pub fn rvs_group_from_parts(
        group_id: i64,
        sender_id: i64,
        sender_name: Option<String>,
        rendered: &str,
    ) -> (r: RenderedOnebotMessage)
        ensures
            r.deep_view() == (RenderedOnebotMessageOf::Group {
                content: split_on(rendered@, '\n'),
                sender_id,
                sender_name: match sender_name {
                    Some(n) => n@,
                    None => signed_decimal(sender_id as int),
                },
                group_id,
            }),
    {
        let sender_name = match sender_name {
            Some(n) => n,
            None => i64_to_decimal(sender_id),
        };
        let content = rvs_split_lines(rendered);
        RenderedOnebotMessageOf::Group { content, sender_id, sender_name, group_id }
    }
}

// ---------------------------------------------------------------------------
// Images as ASCII art
// ---------------------------------------------------------------------------
/// `image::DynamicImage`, a decoded image.
#[verifier::external_type_specification]
#[verifier::external_body]
pub struct ExDynamicImage(image::DynamicImage);

/// What `rascii_art::render_image_to` gives for `image` rendered `height`
/// rows high, in colour or not: the rendered text, or the `Display` text of
/// the error it reports. The rendering depends on the image and the options
/// alone.
pub uninterp spec fn ascii_render_outcome(image: image::DynamicImage, height: u32, colored: bool) -> Result<Seq<char>, Seq<char>>;

/// `rascii_art::render_image_to` into a fresh buffer, with default options but
/// for `height` and `colored`: its result is the named outcome for these
/// arguments.
#[verifier::external_body]
fn render_image_ascii(image: &image::DynamicImage, height: u32, colored: bool) -> (r: Result<String, String>)
    ensures
        outcome_view(r) == ascii_render_outcome(*image, height, colored),
{
    let mut buf = String::new();
    let options = rascii_art::RenderOptions::default().height(height).colored(colored);
    match rascii_art::render_image_to(image, &mut buf, &options) {
        Ok(()) => Ok(buf),
        Err(err) => Err(err.to_string()),
    }
}

/// The text that stands for a rendered image: the art on lines of its own, or
/// a note that rendering failed.
pub open spec fn ascii_art_text_view(outcome: Result<Seq<char>, Seq<char>>) -> Seq<char> {
    match outcome {
        Ok(art) => "\n"@ + art + "\n"@,
        Err(err) => "[image:render-error:"@ + err + "]"@,
    }
}

/// The characters of a rendering outcome.
pub open spec fn outcome_view(o: Result<String, String>) -> Result<Seq<char>, Seq<char>> {
    match o {
        Ok(a) => Ok(a@),
        Err(e) => Err(e@),
    }
}

/// The text that stands for an image, given what rendering it gave.
pub fn rvs_ascii_art_text(outcome: Result<String, String>) -> (r: String)
    ensures
        r@ == ascii_art_text_view(outcome_view(outcome)),
{
    match outcome {
        Ok(art) => concat3("\n", art.as_str(), "\n"),
        Err(err) => concat3("[image:render-error:", err.as_str(), "]"),
    }
}

/// An image as coloured ASCII art 15 rows high, or a note that rendering failed.
pub fn rvs_render_ascii_art_E(image: &image::DynamicImage) -> (r: String)
    ensures
        r@ == ascii_art_text_view(ascii_render_outcome(*image, 15, true)),
{
    let outcome = render_image_ascii(image, 15, true);
    rvs_ascii_art_text(outcome)
}

/// The step of reading an image that failed: telling its format, or decoding it.
#[derive(Clone, Copy, Debug, PartialEq, Eq, Structural)]
pub enum ImageFailure {
    Format,
    Decode,
}

/// What reading `bytes` as an image gives: the decoded image, or the failed
/// step with the `Display` text of its error. The result depends on the
/// bytes alone.
pub uninterp spec fn image_decode_outcome(bytes: Seq<u8>) -> Result<image::DynamicImage, (ImageFailure, Seq<char>)>;

/// A decoding outcome with its error text as characters.
pub open spec fn decode_view(r: Result<image::DynamicImage, (ImageFailure, String)>) -> Result<
    image::DynamicImage,
    (ImageFailure, Seq<char>),
> {
    match r {
        Ok(image) => Ok(image),
        Err((step, e)) => Err((step, e@)),
    }
}

/// `image::io::Reader` over the bytes, with default limits:
/// `with_guessed_format`, then `decode`. Its result is the named outcome for
/// the bytes, each error marked with the step that reported it.
#[verifier::external_body]
fn decode_image_bytes(bytes: &[u8]) -> (r: Result<image::DynamicImage, (ImageFailure, String)>)
    ensures
        decode_view(r) == image_decode_outcome(bytes@),
{
    let reader = match image::io::Reader::new(std::io::Cursor::new(bytes)).with_guessed_format() {
        Ok(reader) => reader,
        Err(err) => return Err((ImageFailure::Format, err.to_string())),
    };
    match reader.decode() {
        Ok(image) => Ok(image),
        Err(err) => Err((ImageFailure::Decode, err.to_string())),
    }
}

/// The text that stands for an image file's bytes: the image as coloured
/// ASCII art 15 rows high, or a note that telling its format, decoding it or
/// rendering it failed.
pub open spec fn image_bytes_text_view(bytes: Seq<u8>) -> Seq<char> {
    match image_decode_outcome(bytes) {
        Ok(image) => ascii_art_text_view(ascii_render_outcome(image, 15, true)),
        Err((ImageFailure::Format, e)) => image_note_view("format-error:"@ + e),
        Err((ImageFailure::Decode, e)) => image_note_view("decode-error:"@ + e),
    }
}

/// An image file's bytes as the text that stands for the image.
pub fn rvs_render_image_bytes_E(bytes: &[u8]) -> (r: String)
    ensures
        r@ == image_bytes_text_view(bytes@),
{
    match decode_image_bytes(bytes) {
        Ok(image) => rvs_render_ascii_art_E(&image),
        Err((ImageFailure::Format, e)) => rvs_image_note(
            concat2("format-error:", e.as_str()).as_str(),
        ),
        Err((ImageFailure::Decode, e)) => rvs_image_note(
            concat2("decode-error:", e.as_str()).as_str(),
        ),
    }
}

} // verus!
