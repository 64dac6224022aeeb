//! Pure helpers around language lists. Negotiation, translation lookup and
//! loading of localizations are collaborators of the surrounding runtime;
//! only the list formatting and ordering logic lives here.

use vstd::prelude::*;

verus! {

/// The separator written between listed language tags.
pub open spec fn language_separator() -> Seq<char> {
    ", "@
}

/// The tags joined from index `i` on, each but the first preceded by the
/// separator (relative to the whole list, so index 0 is bare).
pub open spec fn spec_joined_from(languages: Seq<String>, i: int) -> Seq<char>
    decreases languages.len() - i,
    when 0 <= i <= languages.len()
{
    if i >= languages.len() {
        Seq::empty()
    } else if i == 0 {
        languages[0]@ + spec_joined_from(languages, 1)
    } else {
        language_separator() + languages[i]@ + spec_joined_from(languages, i + 1)
    }
}

/// A language list rendered for display: the tags joined with `, `, in
/// brackets.
pub open spec fn spec_display_languages(languages: Seq<String>) -> Seq<char> {
    "["@ + spec_joined_from(languages, 0) + "]"@
}

/// Renders a list of language tags as `[tag, tag, ...]`.
pub fn display_languages(languages: &Vec<String>) -> (r: String)
    ensures
        r@ == spec_display_languages(languages@),
{
    let mut out = String::from_str("[");
    let n = languages.len();
    let mut i: usize = 0;
    while i < n
        invariant
            i <= n,
            n == languages@.len(),
            out@ + spec_joined_from(languages@, i as int) == "["@ + spec_joined_from(
                languages@,
                0,
            ),
        decreases n - i,
    {
        let ghost prev: Seq<char> = out@;
        if i > 0 {
            out.append(", ");
        }
        out.append(languages[i].as_str());
        proof {
            assert(out@ + spec_joined_from(languages@, i + 1) =~= prev + spec_joined_from(
                languages@,
                i as int,
            ));
        }
        i += 1;
    }
    out.append("]");
    proof {
        assert(out@ =~= spec_display_languages(languages@));
    }
    out
}

/// The index at or after `i` of the first item equal to `tag`, or the length
/// of the list when no item is.
pub open spec fn spec_position_from(items: Seq<String>, tag: Seq<char>, i: int) -> int
    decreases items.len() - i,
    when 0 <= i <= items.len()
{
    if i >= items.len() {
        items.len() as int
    } else if items[i]@ == tag {
        i
    } else {
        spec_position_from(items, tag, i + 1)
    }
}

pub open spec fn spec_position(items: Seq<String>, tag: Seq<char>) -> int {
    spec_position_from(items, tag, 0)
}

fn position_of(items: &Vec<String>, tag: &str) -> (r: usize)
    ensures
        r == spec_position(items@, tag@),
        r <= items@.len(),
{
    let n = items.len();
    let mut i: usize = 0;
    while i < n
        invariant
            i <= n,
            n == items@.len(),
            spec_position(items@, tag@) == spec_position_from(items@, tag@, i as int),
        decreases n - i,
    {
        if crate::str_eq(items[i].as_str(), tag) {
            return i;
        }
        i += 1;
    }
    n
}

/// The list reordered by `order`, tags of `order` taken in turn: for each,
/// the first remaining item equal to it moves to the end of the ordered
/// part; items matching no tag keep their relative order after all ordered
/// ones.
pub open spec fn spec_order_from(unordered: Seq<String>, order: Seq<String>, k: int) -> Seq<String>
    decreases order.len() - k,
    when 0 <= k <= order.len()
{
    if k >= order.len() {
        unordered
    } else {
        let i = spec_position(unordered, order[k]@);
        if i < unordered.len() {
            seq![unordered[i]] + spec_order_from(unordered.remove(i), order, k + 1)
        } else {
            spec_order_from(unordered, order, k + 1)
        }
    }
}

pub open spec fn spec_order_languages(unordered: Seq<String>, order: Seq<String>) -> Seq<String> {
    spec_order_from(unordered, order, 0)
}

/// Orders a list of language tags by the order given in `language_order`;
/// tags without a match keep their original order, after any ordered ones.
pub fn order_languages(unordered: Vec<String>, language_order: &Vec<String>) -> (r: Vec<String>)
    ensures
        r@ == spec_order_languages(unordered@, language_order@),
{
    let ghost initial: Seq<String> = unordered@;
    let mut remaining = unordered;
    let mut ordered: Vec<String> = Vec::new();
    let n = language_order.len();
    let mut k: usize = 0;
    while k < n
        invariant
            k <= n,
            n == language_order@.len(),
            ordered@ + spec_order_from(remaining@, language_order@, k as int) == spec_order_from(
                initial,
                language_order@,
                0,
            ),
        decreases n - k,
    {
        let ghost ordered_before: Seq<String> = ordered@;
        let ghost remaining_before: Seq<String> = remaining@;
        let i = position_of(&remaining, language_order[k].as_str());
        if i < remaining.len() {
            let item = remaining.remove(i);
            ordered.push(item);
            proof {
                assert(ordered@ + spec_order_from(remaining@, language_order@, k + 1)
                    =~= ordered_before + spec_order_from(
                    remaining_before,
                    language_order@,
                    k as int,
                ));
            }
        }
        k += 1;
    }
    let mut result = ordered;
    result.append(&mut remaining);
    proof {
        assert(result@ =~= spec_order_languages(initial, language_order@));
    }
    result
}

} // verus!
