//! The clipboard history as the user interface shows it: which entries a
//! search keeps, how an entry is laid out in the list, which entry a paste
//! request names, whether copied text is worth recording, and the one-line
//! preview stored with a new entry.
use vstd::prelude::*;
use crate::decimal::{decimal_chars, decimal_digits};
use crate::text::{
    chars_of, contains, contains_char, contains_spec, copy_range, lemma_trim_is_subrange, occurs_at,
    lowercase_of, same_chars, starts_with, starts_with_spec, string_of, to_lowercase, trim,
    trim_spec,
};

verus! {

broadcast use vstd::string::group_string_axioms;

/// What a history entry holds.
#[derive(Clone, Debug)]
pub enum ClipContent {
    /// Plain text.
    Text(String),
    /// Formatted text, with its plain-text rendering.
    RichText { plain: String, html: String },
    /// A PNG image, base64-encoded, with its size in pixels.
    Image { base64: String, width: u32, height: u32 },
}

impl ClipContent {
    /// An identical copy.
    pub fn duplicate(&self) -> (r: Self)
        ensures
            r == *self,
    {
        match self {
            ClipContent::Text(t) => ClipContent::Text(t.clone()),
            ClipContent::RichText { plain, html } => ClipContent::RichText {
                plain: plain.clone(),
                html: html.clone(),
            },
            ClipContent::Image { base64, width, height } => ClipContent::Image {
                base64: base64.clone(),
                width: *width,
                height: *height,
            },
        }
    }
}

/// One entry of the clipboard history.
#[derive(Clone, Debug)]
pub struct ClipItem {
    pub id: String,
    pub content: ClipContent,
    /// When it was copied, in seconds since the Unix epoch (UTC).
    pub timestamp: i64,
    pub pinned: bool,
    pub preview: String,
}

/// The kind of an entry, as the list shows it.
#[derive(PartialEq, Eq, Structural, Clone, Copy, Debug)]
pub enum ClipKind {
    Text,
    RichText,
    Image,
}

/// The label the user interface uses for a kind.
pub open spec fn kind_label_spec(k: ClipKind) -> Seq<char> {
    match k {
        ClipKind::Text => "Text"@,
        ClipKind::RichText => "RichText"@,
        ClipKind::Image => "Image"@,
    }
}

/// The label the user interface uses for a kind.
pub fn kind_label(k: ClipKind) -> (r: String)
    ensures
        r@ == kind_label_spec(k),
{
    let label = match k {
        ClipKind::Text => "Text",
        ClipKind::RichText => "RichText",
        ClipKind::Image => "Image",
    };
    string_of(&chars_of(label))
}

/// One row of the history list.
#[derive(Clone, Debug)]
pub struct ClipRow {
    pub id: String,
    pub kind: ClipKind,
    /// The text pasted for text entries; empty for images.
    pub plain_text: String,
    pub timestamp: i64,
    pub pinned: bool,
    pub preview: String,
    /// The image for image entries; empty for text.
    pub image_base64: String,
}

/// The kind of a content.
pub open spec fn kind_of(c: ClipContent) -> ClipKind {
    match c {
        ClipContent::Text(_) => ClipKind::Text,
        ClipContent::RichText { .. } => ClipKind::RichText,
        ClipContent::Image { .. } => ClipKind::Image,
    }
}

/// The plain text of a content: the text itself, the plain rendering of
/// formatted text, nothing for an image.
pub open spec fn plain_text_of(c: ClipContent) -> Seq<char> {
    match c {
        ClipContent::Text(t) => t@,
        ClipContent::RichText { plain, .. } => plain@,
        ClipContent::Image { .. } => Seq::empty(),
    }
}

/// The base64 image of a content, empty for text.
pub open spec fn image_of(c: ClipContent) -> Seq<char> {
    match c {
        ClipContent::Image { base64, .. } => base64@,
        _ => Seq::empty(),
    }
}

/// `row` shows `item`.
pub open spec fn row_shows(row: ClipRow, item: ClipItem) -> bool {
    &&& row.id@ == item.id@
    &&& row.kind == kind_of(item.content)
    &&& row.plain_text@ == plain_text_of(item.content)
    &&& row.timestamp == item.timestamp
    &&& row.pinned == item.pinned
    &&& row.preview@ == item.preview@
    &&& row.image_base64@ == image_of(item.content)
}

/// The list row for an entry.
pub fn clip_row(item: &ClipItem) -> (r: ClipRow)
    ensures
        row_shows(r, *item),
{
    let (kind, plain_text, image_base64) = match &item.content {
        ClipContent::Text(t) => (ClipKind::Text, t.clone(), String::new()),
        ClipContent::RichText { plain, .. } => (ClipKind::RichText, plain.clone(), String::new()),
        ClipContent::Image { base64, .. } => (ClipKind::Image, String::new(), base64.clone()),
    };
    ClipRow {
        id: item.id.clone(),
        kind,
        plain_text,
        timestamp: item.timestamp,
        pinned: item.pinned,
        preview: item.preview.clone(),
        image_base64,
    }
}

/// Whether a row gets a thumbnail: image rows that carry image data.
pub fn wants_thumbnail(row: &ClipRow) -> (r: bool)
    ensures
        r == (row.kind == ClipKind::Image && row.image_base64@.len() > 0),
{
    match row.kind {
        ClipKind::Image => row.image_base64.as_str().unicode_len() > 0,
        _ => false,
    }
}

// ---------------------------------------------------------------------------
// Search
// ---------------------------------------------------------------------------

/// A lowercased preview matches a lowercased search text when the search
/// text is empty or occurs in it.
pub open spec fn preview_matches_spec(lowered_preview: Seq<char>, lowered_filter: Seq<char>) -> bool {
    lowered_filter.len() == 0 || contains_spec(lowered_preview, lowered_filter)
}

/// Whether a lowercased preview matches a lowercased search text.
pub fn preview_matches(lowered_preview: &Vec<char>, lowered_filter: &Vec<char>) -> (r: bool)
    ensures
        r == preview_matches_spec(lowered_preview@, lowered_filter@),
{
    lowered_filter.len() == 0 || contains(lowered_preview, lowered_filter)
}

/// An entry is listed for a search text when its preview contains the
/// search text, both taken in lower case; everything is listed for an
/// empty search.
pub open spec fn clip_listed(item: ClipItem, search: Seq<char>) -> bool {
    preview_matches_spec(lowercase_of(item.preview@), lowercase_of(search))
}

/// The entries of `items` listed for `search`, in order.
pub open spec fn listed_items(items: Seq<ClipItem>, search: Seq<char>) -> Seq<ClipItem>
    decreases items.len(),
{
    if items.len() == 0 {
        seq![]
    } else {
        listed_items(items.drop_last(), search) + if clip_listed(items.last(), search) {
            seq![items.last()]
        } else {
            seq![]
        }
    }
}

/// The rows of the history list for a search text: one per listed entry, in
/// the order of the history.
pub fn refresh_clips(items: &Vec<ClipItem>, search: &str) -> (r: Vec<ClipRow>)
    ensures
        r@.len() == listed_items(items@, search@).len(),
        forall|i: int|
            0 <= i < r@.len() ==> row_shows(#[trigger] r@[i], listed_items(items@, search@)[i]),
        search@.len() == 0 ==> listed_items(items@, search@) == items@,
{
    let filter = to_lowercase(&chars_of(search));
    proof {
        if search@.len() == 0 {
            lemma_empty_search_lists_all(items@, search@);
        }
    }
    let mut rows: Vec<ClipRow> = Vec::new();
    let mut i: usize = 0;
    assert(items@.take(0) =~= Seq::<ClipItem>::empty());
    while i < items.len()
        invariant
            i <= items.len(),
            filter@ == lowercase_of(search@),
            rows@.len() == listed_items(items@.take(i as int), search@).len(),
            forall|k: int|
                0 <= k < rows@.len() ==> row_shows(
                    #[trigger] rows@[k],
                    listed_items(items@.take(i as int), search@)[k],
                ),
        decreases items.len() - i,
    {
        let item = &items[i];
        let ghost before = listed_items(items@.take(i as int), search@);
        assert(items@.take(i + 1).drop_last() =~= items@.take(i as int));
        assert(items@.take(i + 1).last() == *item);
        let lowered = to_lowercase(&chars_of(item.preview.as_str()));
        if preview_matches(&lowered, &filter) {
            rows.push(clip_row(item));
            assert(listed_items(items@.take(i + 1), search@) == before + seq![*item]);
        } else {
            assert(listed_items(items@.take(i + 1), search@) =~= before);
        }
        i = i + 1;
    }
    assert(items@.take(items.len() as int) =~= items@);
    rows
}

/// An empty search (empty once lowercased) lists the whole history, in order.
pub proof fn lemma_empty_search_lists_all(items: Seq<ClipItem>, search: Seq<char>)
    requires
        lowercase_of(search).len() == 0,
    ensures
        listed_items(items, search) == items,
    decreases items.len(),
{
    if items.len() > 0 {
        lemma_empty_search_lists_all(items.drop_last(), search);
        assert(items.drop_last() + seq![items.last()] =~= items);
    }
}

/// The history list for a search holds exactly the entries of the history
/// whose preview, lowercased by `str::to_lowercase`, contains the search
/// text lowercased the same way (all of them for an empty search).
pub proof fn lemma_listed_exactly_the_matches(items: Seq<ClipItem>, search: Seq<char>)
    ensures
        forall|x: ClipItem|
            #[trigger] listed_items(items, search).contains(x) <==> items.contains(x) && (
            lowercase_of(search).len() == 0 || contains_spec(
                lowercase_of(x.preview@),
                lowercase_of(search),
            )),
    decreases items.len(),
{
    if items.len() > 0 {
        let init = items.drop_last();
        let last = items.last();
        lemma_listed_exactly_the_matches(init, search);
        assert(items =~= init.push(last));
        assert forall|x: ClipItem| #[trigger] items.contains(x) <==> init.contains(x) || x == last by {
            if items.contains(x) {
                let i = choose|i: int| 0 <= i < items.len() && items[i] == x;
                if i < init.len() {
                    assert(init[i] == x);
                }
            }
            if init.contains(x) {
                let i = choose|i: int| 0 <= i < init.len() && init[i] == x;
                assert(items[i] == x);
            }
            if x == last {
                assert(items[items.len() - 1] == x);
            }
        }
        let a = listed_items(init, search);
        if clip_listed(last, search) {
            assert forall|x: ClipItem| #[trigger] (a + seq![last]).contains(x) <==> a.contains(x)
                || x == last by {
                if (a + seq![last]).contains(x) {
                    let i = choose|i: int| 0 <= i < a.len() + 1 && (a + seq![last])[i] == x;
                    if i < a.len() {
                        assert(a[i] == x);
                    }
                }
                if a.contains(x) {
                    let i = choose|i: int| 0 <= i < a.len() && a[i] == x;
                    assert((a + seq![last])[i] == x);
                }
                if x == last {
                    assert((a + seq![last])[a.len() as int] == x);
                }
            }
        } else {
            assert(a + seq![] =~= a);
        }
    }
}

/// Searching for an entry's own preview text, in any letter case that
/// `str::to_lowercase` folds together, lists that entry.
pub proof fn lemma_own_text_finds_entry(items: Seq<ClipItem>, search: Seq<char>, k: int)
    requires
        0 <= k < items.len(),
        lowercase_of(items[k].preview@) == lowercase_of(search),
    ensures
        listed_items(items, search).contains(items[k]),
{
    let l = lowercase_of(search);
    assert(l.subrange(0, l.len() as int) =~= l);
    assert(occurs_at(l, l, 0));
    lemma_listed_exactly_the_matches(items, search);
    assert(items.contains(items[k]));
}

/// A search whose lowercased text contains that of another lists nothing
/// that the other leaves out.
proof fn lemma_narrower_match_implies_wider(item: ClipItem, narrow: Seq<char>, wide: Seq<char>)
    requires
        contains_spec(lowercase_of(narrow), lowercase_of(wide)),
        clip_listed(item, narrow),
    ensures
        clip_listed(item, wide),
{
    let p = lowercase_of(item.preview@);
    let n = lowercase_of(narrow);
    let w = lowercase_of(wide);
    let j = choose|j: int| occurs_at(n, w, j);
    if n.len() > 0 {
        let i = choose|i: int| occurs_at(p, n, i);
        assert(p.subrange(i + j, i + j + w.len()) =~= w) by {
            assert forall|k: int| 0 <= k < w.len() implies p.subrange(i + j, i + j + w.len())[k]
                == w[k] by {
                assert(n.subrange(j, j + w.len())[k] == n[j + k]);
                assert(p.subrange(i, i + n.len())[j + k] == p[i + j + k]);
            }
        }
        assert(occurs_at(p, w, i + j));
    }
}

/// Listing for a narrower search (one whose lowercased text contains the
/// lowercased text of a wider one) is the same as listing the wider
/// search's entries again for the narrower text: the narrower list is the
/// wider list with some entries left out, in the same order.
pub proof fn lemma_narrower_search_filters_wider(
    items: Seq<ClipItem>,
    narrow: Seq<char>,
    wide: Seq<char>,
)
    requires
        contains_spec(lowercase_of(narrow), lowercase_of(wide)),
    ensures
        listed_items(listed_items(items, wide), narrow) == listed_items(items, narrow),
    decreases items.len(),
{
    if items.len() > 0 {
        let init = items.drop_last();
        let x = items.last();
        lemma_narrower_search_filters_wider(init, narrow, wide);
        let a = listed_items(init, wide);
        if clip_listed(x, wide) {
            let ax = a + seq![x];
            assert(ax.drop_last() =~= a);
            assert(ax.last() == x);
        } else {
            if clip_listed(x, narrow) {
                lemma_narrower_match_implies_wider(x, narrow, wide);
            }
            assert(a + seq![] =~= a);
        }
    }
}

/// `small` is `big` with some entries left out: each entry of `small` is at
/// a position of `big`, and the positions increase.
pub open spec fn is_subsequence<T>(small: Seq<T>, big: Seq<T>) -> bool {
    exists|positions: Seq<int>| picks_out(positions, small, big)
}

/// `positions` are increasing positions of `big` holding the entries of
/// `small`, in order.
pub open spec fn picks_out<T>(positions: Seq<int>, small: Seq<T>, big: Seq<T>) -> bool {
    &&& positions.len() == small.len()
    &&& forall|k: int|
        0 <= k < positions.len() ==> 0 <= #[trigger] positions[k] < big.len() && big[positions[k]]
            == small[k]
    &&& forall|k: int, l: int|
        0 <= k < l < positions.len() ==> #[trigger] positions[k] < #[trigger] positions[l]
}

/// The positions of the entries listed for `search`, in order.
pub open spec fn listed_positions(items: Seq<ClipItem>, search: Seq<char>) -> Seq<int>
    decreases items.len(),
{
    if items.len() == 0 {
        seq![]
    } else {
        listed_positions(items.drop_last(), search) + if clip_listed(items.last(), search) {
            seq![items.len() - 1]
        } else {
            seq![]
        }
    }
}

proof fn lemma_listed_positions(items: Seq<ClipItem>, search: Seq<char>)
    ensures
        picks_out(listed_positions(items, search), listed_items(items, search), items),
        forall|k: int|
            0 <= k < listed_positions(items, search).len() ==> #[trigger] listed_positions(
                items,
                search,
            )[k] < items.len(),
    decreases items.len(),
{
    if items.len() > 0 {
        let init = items.drop_last();
        lemma_listed_positions(init, search);
        let pos = listed_positions(init, search);
        let lst = listed_items(init, search);
        assert forall|k: int| 0 <= k < pos.len() implies items[#[trigger] pos[k]] == init[pos[k]] by {
            assert(pos[k] < init.len());
        }
        if clip_listed(items.last(), search) {
            let p2 = pos + seq![items.len() - 1];
            let l2 = lst + seq![items.last()];
            assert(listed_positions(items, search) == p2);
            assert(listed_items(items, search) == l2);
            assert forall|k: int| 0 <= k < p2.len() implies 0 <= #[trigger] p2[k] < items.len()
                && items[p2[k]] == l2[k] by {
                if k < pos.len() {
                    assert(p2[k] == pos[k]);
                    assert(l2[k] == lst[k]);
                }
            }
            assert forall|k: int, l: int| 0 <= k < l < p2.len() implies #[trigger] p2[k]
                < #[trigger] p2[l] by {
                if l < pos.len() {
                    assert(p2[k] == pos[k] && p2[l] == pos[l]);
                } else {
                    assert(p2[k] == pos[k]);
                }
            }
        } else {
            assert(pos + seq![] =~= pos);
            assert(lst + seq![] =~= lst);
        }
    }
}

/// The entries listed for a search are the history with some entries left
/// out, in the history's order.
pub proof fn lemma_listed_is_subsequence(items: Seq<ClipItem>, search: Seq<char>)
    ensures
        is_subsequence(listed_items(items, search), items),
{
    lemma_listed_positions(items, search);
    assert(picks_out(listed_positions(items, search), listed_items(items, search), items));
}

/// A narrower search (one whose lowercased text contains the lowercased
/// text of a wider one) lists a subsequence of what the wider search lists.
pub proof fn lemma_narrower_search_lists_subsequence(
    items: Seq<ClipItem>,
    narrow: Seq<char>,
    wide: Seq<char>,
)
    requires
        contains_spec(lowercase_of(narrow), lowercase_of(wide)),
    ensures
        is_subsequence(listed_items(items, narrow), listed_items(items, wide)),
{
    lemma_narrower_search_filters_wider(items, narrow, wide);
    lemma_listed_is_subsequence(listed_items(items, wide), narrow);
}

/// The index of the first entry with the given id, if any.
pub open spec fn first_with_id(items: Seq<ClipItem>, id: Seq<char>, i: int) -> bool {
    &&& 0 <= i < items.len()
    &&& items[i].id@ == id
    &&& forall|k: int| 0 <= k < i ==> items[k].id@ != id
}

/// The content of the first entry with the given id (what a paste request
/// for that id pastes), or `None` when no entry has it.
pub fn content_for_id(items: &Vec<ClipItem>, id: &str) -> (r: Option<ClipContent>)
    ensures
        r is None <==> forall|k: int| 0 <= k < items@.len() ==> items@[k].id@ != id@,
        r matches Some(c) ==> exists|i: int| first_with_id(items@, id@, i) && c == items@[i].content,
{
    let wanted = chars_of(id);
    let mut i: usize = 0;
    while i < items.len()
        invariant
            i <= items.len(),
            wanted@ == id@,
            forall|k: int| 0 <= k < i ==> items@[k].id@ != id@,
        decreases items.len() - i,
    {
        if same_chars(&chars_of(items[i].id.as_str()), &wanted) {
            assert(first_with_id(items@, id@, i as int));
            return Some(items[i].content.duplicate());
        }
        i = i + 1;
    }
    None
}

// ---------------------------------------------------------------------------
// Recording copied text
// ---------------------------------------------------------------------------

/// Copied text is recorded unless it is blank, looks like PNG data read as
/// text (it starts with U+FFFD followed by `PNG`), or holds a NUL character.
pub open spec fn recordable_spec(text: Seq<char>) -> bool {
    &&& trim_spec(text).len() > 0
    &&& !starts_with_spec(text, "\u{fffd}PNG"@)
    &&& !text.contains('\0')
}

/// Whether copied text is recorded in the history.
pub fn is_recordable_text(text: &str) -> (r: bool)
    ensures
        r == recordable_spec(text@),
{
    let t = chars_of(text);
    trim(&t).len() > 0 && !starts_with(&t, &chars_of("\u{fffd}PNG")) && !contains_char(&t, '\0')
}

/// What one look at the clipboard records.
#[derive(PartialEq, Eq, Structural, Clone, Copy, Debug)]
pub struct Observed {
    /// The text on the clipboard is new and goes into the history.
    pub record_text: bool,
    /// The image on the clipboard is new and goes into the history.
    pub record_image: bool,
}

/// One look at the clipboard from the remembered hashes `(text, image)`
/// (0 for none), given the clipboard's text with its hash and the hash of
/// its image, where there are any: what is recorded, and the hashes
/// remembered afterwards. Text is recorded when it is recordable and its
/// hash differs from the last recorded text's; that forgets the last image.
/// An image is recorded when its hash differs from the last recorded image's
/// as it was before this look; that forgets the last text.
pub open spec fn observe_spec(
    hashes: (u64, u64),
    text: Option<(Seq<char>, u64)>,
    image_hash: Option<u64>,
) -> (Observed, (u64, u64)) {
    let record_text = match text {
        Some((t, h)) => recordable_spec(t) && h != hashes.0,
        None => false,
    };
    let record_image = match image_hash {
        Some(h) => h != hashes.1,
        None => false,
    };
    let after_text = if record_text {
        (text.unwrap().1, 0u64)
    } else {
        hashes
    };
    let after = if record_image {
        (0u64, image_hash.unwrap())
    } else {
        after_text
    };
    (Observed { record_text, record_image }, after)
}

/// The clipboard's text and its hash, as plain values.
pub open spec fn text_view(text: Option<(&str, u64)>) -> Option<(Seq<char>, u64)> {
    match text {
        Some((t, h)) => Some((t@, h)),
        None => None,
    }
}

/// What the clipboard watcher remembers between two looks at the
/// clipboard: the hashes of the text and of the image it recorded last.
pub struct ClipboardWatch {
    last_text_hash: u64,
    last_image_hash: u64,
}

impl ClipboardWatch {
    /// The remembered hashes: last text, last image (0 for none).
    pub closed spec fn hashes(&self) -> (u64, u64) {
        (self.last_text_hash, self.last_image_hash)
    }

    /// Nothing recorded yet.
    pub fn new() -> (r: Self)
        ensures
            r.hashes() == (0u64, 0u64),
    {
        ClipboardWatch { last_text_hash: 0, last_image_hash: 0 }
    }

    /// Marks an image as already seen, so that it is not recorded (used for
    /// screenshots that land on the clipboard during text recognition).
    pub fn note_image(&mut self, hash: u64)
        ensures
            final(self).hashes() == (old(self).hashes().0, hash),
    {
        self.last_image_hash = hash;
    }

    /// One look at the clipboard (see `observe_spec`).
    pub fn observe(&mut self, text: Option<(&str, u64)>, image_hash: Option<u64>) -> (r: Observed)
        ensures
            (r, final(self).hashes()) == observe_spec(old(self).hashes(), text_view(text), image_hash),
    {
        let seen_image = self.last_image_hash;
        let record_text = match text {
            Some((t, h)) => is_recordable_text(t) && h != self.last_text_hash,
            None => false,
        };
        if record_text {
            self.last_text_hash = text.unwrap().1;
            self.last_image_hash = 0;
        }
        let record_image = match image_hash {
            Some(h) => h != seen_image,
            None => false,
        };
        if record_image {
            self.last_image_hash = image_hash.unwrap();
            self.last_text_hash = 0;
        }
        Observed { record_text, record_image }
    }
}

/// Text that stays on the clipboard, with no image, is recorded at most
/// once: the look after one that recorded it records nothing.
pub proof fn lemma_unchanged_text_recorded_once(hashes: (u64, u64), text: Seq<char>, hash: u64)
    ensures
        ({
            let (first, after) = observe_spec(hashes, Some((text, hash)), None);
            let (second, _) = observe_spec(after, Some((text, hash)), None);
            !second.record_text && !second.record_image
        }),
{
}

/// Line breaks and tabs become spaces in a preview.
pub open spec fn spaced(c: char) -> char {
    if c == '\r' || c == '\n' || c == '\t' {
        ' '
    } else {
        c
    }
}

/// `s` with every run of spaces reduced to one space, given whether the
/// character before `s` was a kept space.
pub open spec fn collapse_from(s: Seq<char>, after_space: bool) -> Seq<char>
    decreases s.len(),
{
    if s.len() == 0 {
        seq![]
    } else if s[0] == ' ' {
        if after_space {
            collapse_from(s.drop_first(), true)
        } else {
            seq![' '] + collapse_from(s.drop_first(), true)
        }
    } else {
        seq![s[0]] + collapse_from(s.drop_first(), false)
    }
}

/// Longest preview, in characters, before it is cut short.
pub const PREVIEW_CHARS: usize = 80;

/// The one-line preview of copied text: line breaks and tabs turned into
/// spaces, runs of spaces collapsed, surrounding white space trimmed, and
/// anything beyond 80 characters replaced by `...`.
pub open spec fn preview_spec(text: Seq<char>) -> Seq<char> {
    let t = trim_spec(collapse_from(text.map_values(|c: char| spaced(c)), false));
    if t.len() > PREVIEW_CHARS {
        t.take(PREVIEW_CHARS as int) + "..."@
    } else {
        t
    }
}

/// The one-line preview stored with copied text.
pub fn text_preview(text: &str) -> (r: String)
    ensures
        r@ == preview_spec(text@),
{
    let chars = chars_of(text);
    let ghost cleaned = text@.map_values(|c: char| spaced(c));
    let mut out: Vec<char> = Vec::new();
    let mut after_space = false;
    let mut i: usize = 0;
    assert(cleaned.skip(0) =~= cleaned);
    while i < chars.len()
        invariant
            i <= chars.len(),
            chars@ == text@,
            cleaned == text@.map_values(|c: char| spaced(c)),
            out@ + collapse_from(cleaned.skip(i as int), after_space) == collapse_from(
                cleaned,
                false,
            ),
        decreases chars.len() - i,
    {
        let raw = chars[i];
        let c = if raw == '\r' || raw == '\n' || raw == '\t' {
            ' '
        } else {
            raw
        };
        let ghost rest = cleaned.skip(i as int);
        assert(rest[0] == c);
        assert(rest.drop_first() =~= cleaned.skip(i + 1));
        if c == ' ' {
            if !after_space {
                let ghost before = out@;
                out.push(' ');
                assert(before + (seq![' '] + collapse_from(rest.drop_first(), true)) =~= out@
                    + collapse_from(rest.drop_first(), true));
            }
            after_space = true;
        } else {
            let ghost before = out@;
            out.push(c);
            assert(before + (seq![c] + collapse_from(rest.drop_first(), false)) =~= out@
                + collapse_from(rest.drop_first(), false));
            after_space = false;
        }
        i = i + 1;
    }
    assert(cleaned.skip(chars.len() as int) =~= Seq::<char>::empty());
    assert(out@ + Seq::<char>::empty() =~= out@);
    let t = trim(&out);
    if t.len() > PREVIEW_CHARS {
        let mut cut = copy_range(&t, 0, PREVIEW_CHARS);
        let mut dots = chars_of("...");
        cut.append(&mut dots);
        assert(t@.subrange(0, PREVIEW_CHARS as int) =~= t@.take(PREVIEW_CHARS as int));
        string_of(&cut)
    } else {
        string_of(&t)
    }
}

/// `s` holds no line break or tab.
pub open spec fn one_line(s: Seq<char>) -> bool {
    forall|i: int| 0 <= i < s.len() ==> #[trigger] s[i] != '\r' && s[i] != '\n' && s[i] != '\t'
}

/// No two spaces in `s` stand side by side.
pub open spec fn single_spaced(s: Seq<char>) -> bool {
    forall|i: int| 0 <= i < s.len() - 1 ==> !(#[trigger] s[i] == ' ' && s[i + 1] == ' ')
}

proof fn lemma_collapse_shape(s: Seq<char>, after_space: bool)
    requires
        one_line(s),
    ensures
        one_line(collapse_from(s, after_space)),
        single_spaced(collapse_from(s, after_space)),
        after_space && collapse_from(s, after_space).len() > 0 ==> collapse_from(s, after_space)[0]
            != ' ',
        collapse_from(s, after_space).len() <= s.len(),
    decreases s.len(),
{
    if s.len() > 0 {
        let rest = s.drop_first();
        assert(one_line(rest)) by {
            assert forall|i: int| 0 <= i < rest.len() implies #[trigger] rest[i] != '\r'
                && rest[i] != '\n' && rest[i] != '\t' by {
                assert(rest[i] == s[i + 1]);
            }
        }
        lemma_collapse_shape(rest, true);
        lemma_collapse_shape(rest, false);
        assert(s[0] != '\r' && s[0] != '\n' && s[0] != '\t');
        if s[0] == ' ' {
            if !after_space {
                let tail = collapse_from(rest, true);
                let r = seq![' '] + tail;
                assert(forall|i: int| 0 < i < r.len() ==> r[i] == tail[i - 1]);
            }
        } else {
            let tail = collapse_from(rest, false);
            let r = seq![s[0]] + tail;
            assert(forall|i: int| 0 < i < r.len() ==> r[i] == tail[i - 1]);
        }
    }
}

/// A preview begins with the text: the copied text with line breaks and
/// tabs as spaces, runs of spaces collapsed and the ends trimmed is the
/// preview itself when it has at most 80 characters; a longer one is cut to
/// its first 80 characters followed by `...`.
pub proof fn lemma_preview_keeps_the_start(text: Seq<char>)
    ensures
        ({
            let tidied = trim_spec(collapse_from(text.map_values(|c: char| spaced(c)), false));
            let p = preview_spec(text);
            &&& tidied.len() <= 80 ==> p == tidied
            &&& tidied.len() > 80 ==> {
                &&& p.len() == 83
                &&& p.take(80) == tidied.take(80)
                &&& p.skip(80) == seq!['.', '.', '.']
            }
        }),
{
    reveal_strlit("...");
    let tidied = trim_spec(collapse_from(text.map_values(|c: char| spaced(c)), false));
    let p = preview_spec(text);
    if tidied.len() > 80 {
        assert(p.take(80) =~= tidied.take(80));
        assert(p.skip(80) =~= seq!['.', '.', '.']);
    }
}

/// A preview is one line: it holds no line break or tab, no two spaces side
/// by side, and at most 83 characters (80 kept plus `...`).
pub proof fn lemma_preview_is_one_line(text: Seq<char>)
    ensures
        one_line(preview_spec(text)),
        single_spaced(preview_spec(text)),
        preview_spec(text).len() <= PREVIEW_CHARS + 3,
{
    let cleaned = text.map_values(|c: char| spaced(c));
    assert(one_line(cleaned));
    lemma_collapse_shape(cleaned, false);
    let c = collapse_from(cleaned, false);
    lemma_trim_is_subrange(c);
    let (a, b) = choose|a: int, b: int| 0 <= a <= b <= c.len() && trim_spec(c) == c.subrange(a, b);
    let t = trim_spec(c);
    assert(forall|i: int| 0 <= i < t.len() ==> t[i] == c[a + i]);
    assert(one_line(t));
    assert(single_spaced(t));
    reveal_strlit("...");
    if t.len() > PREVIEW_CHARS {
        let p = t.take(PREVIEW_CHARS as int) + "..."@;
        assert(forall|i: int| 0 <= i < PREVIEW_CHARS ==> p[i] == t[i]);
        assert(forall|i: int| PREVIEW_CHARS <= i < p.len() ==> p[i] == '.');
        assert(one_line(p));
        assert(single_spaced(p));
    }
}

/// The preview stored with a copied image: `Image (<width>x<height>)`.
pub open spec fn image_preview_spec(width: u64, height: u64) -> Seq<char> {
    "Image ("@ + decimal_digits(width as nat) + "x"@ + decimal_digits(height as nat) + ")"@
}

/// The preview stored with a copied image.
pub fn image_preview(width: u64, height: u64) -> (r: String)
    ensures
        r@ == image_preview_spec(width, height),
{
    let mut out = chars_of("Image (");
    let mut w = decimal_chars(width);
    let mut x = chars_of("x");
    let mut h = decimal_chars(height);
    let mut close = chars_of(")");
    out.append(&mut w);
    out.append(&mut x);
    out.append(&mut h);
    out.append(&mut close);
    string_of(&out)
}

} // verus!
