//! The emoji picker: which emojis a category or a search shows, and how
//! they are laid out in rows of six.
use vstd::prelude::*;
use crate::text::{chars_of, contains, contains_spec, lowercase_of, to_lowercase};

verus! {

broadcast use vstd::string::group_string_axioms;

/// The emoji groups of Unicode CLDR, in the order the `emojis` crate lists
/// them.
#[derive(PartialEq, Eq, Structural, Clone, Copy, Debug)]
pub enum EmojiGroup {
    SmileysAndEmotion,
    PeopleAndBody,
    AnimalsAndNature,
    FoodAndDrink,
    TravelAndPlaces,
    Activities,
    Objects,
    Symbols,
    Flags,
}

/// An emoji as the picker shows it.
#[derive(Clone, Debug)]
pub struct EmojiEntry {
    /// The emoji itself.
    pub character: String,
    /// Its CLDR name.
    pub name: String,
    /// Its first GitHub shortcode, if it has one.
    pub shortcode: Option<String>,
}

/// An emoji as plain text: character, name and first shortcode.
pub type EmojiText = (Seq<char>, Seq<char>, Option<Seq<char>>);

impl View for EmojiEntry {
    type V = EmojiText;

    open spec fn view(&self) -> EmojiText {
        (
            self.character@,
            self.name@,
            match self.shortcode {
                Some(s) => Some(s@),
                None => None,
            },
        )
    }
}

/// The views of a sequence of entries.
pub open spec fn entry_views(v: Seq<EmojiEntry>) -> Seq<EmojiText> {
    v.map_values(|e: EmojiEntry| e@)
}

/// The emojis that `emojis::Group::emojis` yields for `group`, in order.
pub uninterp spec fn emoji_group_listing(group: EmojiGroup) -> Seq<EmojiText>;

/// Every emoji, as `emojis::iter` yields them: the groups one after the other
/// in the crate's order, since its table is sorted by group and
/// `Group::emojis` picks each group's stretch out of that same iterator.
pub open spec fn every_emoji() -> Seq<EmojiText> {
    emoji_group_listing(EmojiGroup::SmileysAndEmotion) + emoji_group_listing(
        EmojiGroup::PeopleAndBody,
    ) + emoji_group_listing(EmojiGroup::AnimalsAndNature) + emoji_group_listing(
        EmojiGroup::FoodAndDrink,
    ) + emoji_group_listing(EmojiGroup::TravelAndPlaces) + emoji_group_listing(
        EmojiGroup::Activities,
    ) + emoji_group_listing(EmojiGroup::Objects) + emoji_group_listing(EmojiGroup::Symbols)
        + emoji_group_listing(EmojiGroup::Flags)
}

/// `emojis::Group::emojis`: the emojis of one group, each read as its
/// character (`as_str`), name (`name`) and first shortcode (`shortcode`).
#[verifier::external_body]
fn group_emojis(group: EmojiGroup) -> (r: Vec<EmojiEntry>)
    ensures
        entry_views(r@) == emoji_group_listing(group),
{
    let g = match group {
        EmojiGroup::SmileysAndEmotion => emojis::Group::SmileysAndEmotion,
        EmojiGroup::PeopleAndBody => emojis::Group::PeopleAndBody,
        EmojiGroup::AnimalsAndNature => emojis::Group::AnimalsAndNature,
        EmojiGroup::FoodAndDrink => emojis::Group::FoodAndDrink,
        EmojiGroup::TravelAndPlaces => emojis::Group::TravelAndPlaces,
        EmojiGroup::Activities => emojis::Group::Activities,
        EmojiGroup::Objects => emojis::Group::Objects,
        EmojiGroup::Symbols => emojis::Group::Symbols,
        EmojiGroup::Flags => emojis::Group::Flags,
    };
    g.emojis().map(|e| EmojiEntry { character: e.as_str().into(), name: e.name().into(), shortcode: e.shortcode().map(|s| s.into()) }).collect()
}

/// `emojis::iter`: every emoji (default skin tone only), read like
/// `group_emojis` reads them. The contract states that this is the
/// concatenation of the groups in the crate's order (see `every_emoji`).
#[verifier::external_body]
fn all_emojis() -> (r: Vec<EmojiEntry>)
    ensures
        entry_views(r@) == every_emoji(),
{
    emojis::iter().map(|e| EmojiEntry { character: e.as_str().into(), name: e.name().into(), shortcode: e.shortcode().map(|s| s.into()) }).collect()
}

/// The group behind a category tab of the picker: tabs 0..=8 are smileys,
/// people, animals, food, activities, travel, objects, symbols and flags;
/// any other index shows smileys.
pub open spec fn category_group_spec(index: i32) -> EmojiGroup {
    if index == 1 {
        EmojiGroup::PeopleAndBody
    } else if index == 2 {
        EmojiGroup::AnimalsAndNature
    } else if index == 3 {
        EmojiGroup::FoodAndDrink
    } else if index == 4 {
        EmojiGroup::Activities
    } else if index == 5 {
        EmojiGroup::TravelAndPlaces
    } else if index == 6 {
        EmojiGroup::Objects
    } else if index == 7 {
        EmojiGroup::Symbols
    } else if index == 8 {
        EmojiGroup::Flags
    } else {
        EmojiGroup::SmileysAndEmotion
    }
}

/// The group behind a category tab of the picker.
pub fn category_group(index: i32) -> (r: EmojiGroup)
    ensures
        r == category_group_spec(index),
{
    match index {
        1 => EmojiGroup::PeopleAndBody,
        2 => EmojiGroup::AnimalsAndNature,
        3 => EmojiGroup::FoodAndDrink,
        4 => EmojiGroup::Activities,
        5 => EmojiGroup::TravelAndPlaces,
        6 => EmojiGroup::Objects,
        7 => EmojiGroup::Symbols,
        8 => EmojiGroup::Flags,
        _ => EmojiGroup::SmileysAndEmotion,
    }
}

/// A search text (lowercased) finds an emoji when it occurs in the emoji's
/// lowercased name or lowercased shortcode.
pub open spec fn emoji_matches_spec(
    lowered_name: Seq<char>,
    lowered_shortcode: Option<Seq<char>>,
    lowered_filter: Seq<char>,
) -> bool {
    contains_spec(lowered_name, lowered_filter) || match lowered_shortcode {
        Some(s) => contains_spec(s, lowered_filter),
        None => false,
    }
}

/// Whether a search text finds an emoji, everything already lowercased.
pub fn emoji_matches(
    lowered_name: &Vec<char>,
    lowered_shortcode: &Option<Vec<char>>,
    lowered_filter: &Vec<char>,
) -> (r: bool)
    ensures
        r == emoji_matches_spec(
            lowered_name@,
            match lowered_shortcode {
                Some(s) => Some(s@),
                None => None,
            },
            lowered_filter@,
        ),
{
    contains(lowered_name, lowered_filter) || match lowered_shortcode {
        Some(s) => contains(s, lowered_filter),
        None => false,
    }
}

/// A search finds the emoji `e`.
pub open spec fn emoji_found(e: EmojiText, search: Seq<char>) -> bool {
    emoji_matches_spec(
        lowercase_of(e.1),
        match e.2 {
            Some(s) => Some(lowercase_of(s)),
            None => None,
        },
        lowercase_of(search),
    )
}

/// The emojis among `es` that a search finds, in order.
pub open spec fn found_emojis(es: Seq<EmojiText>, search: Seq<char>) -> Seq<EmojiText>
    decreases es.len(),
{
    if es.len() == 0 {
        seq![]
    } else {
        found_emojis(es.drop_last(), search) + if emoji_found(es.last(), search) {
            seq![es.last()]
        } else {
            seq![]
        }
    }
}

/// The emojis the picker shows: with a search text (non-empty once
/// lowercased), every emoji it finds; otherwise the group of the category tab.
pub open spec fn picker_emojis(category: i32, search: Seq<char>) -> Seq<EmojiText> {
    if lowercase_of(search).len() > 0 {
        found_emojis(every_emoji(), search)
    } else {
        emoji_group_listing(category_group_spec(category))
    }
}

/// The emojis the picker shows for a category tab and a search text.
pub fn picker_choices(category: i32, search: &str) -> (r: Vec<EmojiEntry>)
    ensures
        entry_views(r@) == picker_emojis(category, search@),
        search@.len() == 0 ==> picker_emojis(category, search@) == emoji_group_listing(
            category_group_spec(category),
        ),
{
    let filter = to_lowercase(&chars_of(search));
    if filter.len() == 0 {
        return group_emojis(category_group(category));
    }
    let all = all_emojis();
    let ghost every = entry_views(all@);
    let mut found: Vec<EmojiEntry> = Vec::new();
    let mut i: usize = 0;
    assert(every.take(0) =~= Seq::<EmojiText>::empty());
    assert(entry_views(found@) =~= Seq::<EmojiText>::empty());
    while i < all.len()
        invariant
            i <= all.len(),
            every == entry_views(all@),
            every == every_emoji(),
            filter@ == lowercase_of(search@),
            entry_views(found@) == found_emojis(every.take(i as int), search@),
        decreases all.len() - i,
    {
        let e = &all[i];
        assert(every.take(i + 1).drop_last() =~= every.take(i as int));
        assert(every.take(i + 1).last() == e@);
        let name = to_lowercase(&chars_of(e.name.as_str()));
        let short = match &e.shortcode {
            Some(s) => Some(to_lowercase(&chars_of(s.as_str()))),
            None => None,
        };
        let ghost before = entry_views(found@);
        if emoji_matches(&name, &short, &filter) {
            found.push(e.clone_entry());
            assert(entry_views(found@) =~= before + seq![e@]);
        } else {
            assert(found_emojis(every.take(i + 1), search@) =~= before);
        }
        i = i + 1;
    }
    assert(every.take(all.len() as int) =~= every);
    found
}

impl EmojiEntry {
    /// An identical copy.
    pub fn clone_entry(&self) -> (r: Self)
        ensures
            r@ == self@,
    {
        EmojiEntry {
            character: self.character.clone(),
            name: self.name.clone(),
            shortcode: match &self.shortcode {
                Some(s) => Some(s.clone()),
                None => None,
            },
        }
    }
}

// ---------------------------------------------------------------------------
// Rows
// ---------------------------------------------------------------------------

/// Emojis per row of the picker grid.
pub const ROW_WIDTH: usize = 6;

/// The rows one after the other.
pub open spec fn concat_rows<T>(rows: Seq<Seq<T>>) -> Seq<T>
    decreases rows.len(),
{
    if rows.len() == 0 {
        seq![]
    } else {
        concat_rows(rows.drop_last()) + rows.last()
    }
}

/// The contents of the rows.
pub open spec fn row_views<T>(rows: Seq<Vec<T>>) -> Seq<Seq<T>> {
    rows.map_values(|r: Vec<T>| r@)
}

/// The grid is well laid out: every row holds `width` items but the last,
/// which holds between one and `width`.
pub open spec fn rows_well_formed<T>(rows: Seq<Seq<T>>, width: nat) -> bool {
    forall|i: int|
        0 <= i < rows.len() ==> if i < rows.len() - 1 {
            #[trigger] rows[i].len() == width
        } else {
            1 <= rows[i].len() <= width
        }
}

/// Lays `items` out in rows of `ROW_WIDTH`, in order.
pub fn into_rows<T>(items: Vec<T>) -> (r: Vec<Vec<T>>)
    ensures
        concat_rows(row_views(r@)) == items@,
        rows_well_formed(row_views(r@), ROW_WIDTH as nat),
{
    let ghost all = items@;
    let mut rest = items;
    let mut rows: Vec<Vec<T>> = Vec::new();
    assert(row_views(rows@) =~= Seq::<Seq<T>>::empty());
    while rest.len() > ROW_WIDTH
        invariant
            concat_rows(row_views(rows@)) + rest@ == all,
            forall|i: int| 0 <= i < rows@.len() ==> #[trigger] rows@[i]@.len() == ROW_WIDTH,
        decreases rest.len(),
    {
        let tail = rest.split_off(ROW_WIDTH);
        let ghost before = rows@;
        rows.push(rest);
        rest = tail;
        assert(row_views(rows@).drop_last() =~= row_views(before));
    }
    if rest.len() > 0 {
        let ghost before = rows@;
        rows.push(rest);
        assert(row_views(rows@).drop_last() =~= row_views(before));
    } else {
        assert(rest@ =~= Seq::<T>::empty());
        assert(concat_rows(row_views(rows@)) + rest@ =~= concat_rows(row_views(rows@)));
    }
    rows
}

/// The emoji grid for a category tab and a search text: the emojis the
/// picker shows (see `picker_emojis`), in rows of six.
pub fn refresh_emojis(category_idx: i32, search_text: &str) -> (r: Vec<Vec<EmojiEntry>>)
    ensures
        entry_views(concat_rows(row_views(r@))) == picker_emojis(category_idx, search_text@),
        rows_well_formed(row_views(r@), ROW_WIDTH as nat),
        search_text@.len() == 0 ==> picker_emojis(category_idx, search_text@)
            == emoji_group_listing(category_group_spec(category_idx)),
{
    into_rows(picker_choices(category_idx, search_text))
}

} // verus!
