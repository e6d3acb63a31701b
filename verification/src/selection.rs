//! The choice of chapters: a line such as `1-3,5`, read as chapter numbers
//! that count from one, becomes the positions of those chapters in the
//! catalog, each once and in rising order.

use vstd::prelude::*;
use crate::text::{chars_of, digit, digit_value, is_digit};

verus! {

/// Why a line is no choice of chapters.
#[derive(Debug, Clone, Copy, PartialEq, Eq, Structural)]
pub enum SelectionError {
    /// The line is no list of numbers and ranges.
    InvalidFormat,
    /// A number of the line is zero or beyond the last chapter.
    OutOfRange,
    /// The line is too long for a catalog of this size.
    TooLong,
}

/// The largest number of items that a line may list when every range in it
/// is written out.
pub const EXPANSION_LIMIT: usize = 0x100_0000;

/// The value of the digits that `s` ends with; zero where it ends with none.
pub open spec fn trailing_value(s: Seq<char>) -> nat
    decreases s.len(),
{
    if s.len() == 0 || !is_digit(s.last()) {
        0
    } else {
        trailing_value(s.drop_last()) * 10 + digit_value(s.last())
    }
}

/// Whether no run of digits in `s` is worth more than `bound`, at any point
/// of the run.
pub open spec fn numbers_within(s: Seq<char>, bound: nat) -> bool {
    forall|k: int| 0 <= k <= s.len() ==> trailing_value(#[trigger] s.take(k)) <= bound
}

/// Tells whether every number written in `text` is at most `bound`.
pub fn numbers_within_bound(text: &str, bound: usize) -> (yes: bool)
    ensures
        yes == numbers_within(text@, bound as nat),
{
    let chars = chars_of(text);
    let mut run: usize = 0;
    let mut i: usize = 0;
    assert(chars@.take(0).len() == 0);
    while i < chars.len()
        invariant
            i <= chars.len(),
            chars@ == text@,
            run == trailing_value(chars@.take(i as int)),
            run <= bound,
            forall|k: int| 0 <= k <= i ==> trailing_value(#[trigger] chars@.take(k)) <= bound,
        decreases chars.len() - i,
    {
        let c = chars[i];
        proof {
            assert(chars@.take(i + 1).drop_last() == chars@.take(i as int));
            assert(chars@.take(i + 1).last() == c);
        }
        if digit(c) {
            let d: usize = (c as u8 - 48) as usize;
            let grown = match run.checked_mul(10) {
                Some(tenfold) => tenfold.checked_add(d),
                None => None,
            };
            match grown {
                Some(value) => {
                    if value > bound {
                        return false;
                    }
                    run = value;
                },
                None => {
                    return false;
                },
            }
        } else {
            run = 0;
        }
        i = i + 1;
    }
    true
}

/// Whether the line `s`, with no number above `bound`, lists at most
/// `limit` items when every range in it is written out. A line has at most
/// one item more than it has characters, and an item is a number or a range
/// of at most `bound + 1` numbers.
pub open spec fn expands_within(s: Seq<char>, bound: nat, limit: nat) -> bool {
    numbers_within(s, bound) && (s.len() + 1) * (bound + 1) <= limit
}

/// The numbers that the line `text` lists, as `range_parser::parse` reads it
/// for `usize`: the items between commas in order, a range `a-b` as every
/// number from `a` to `b`. `None` where the crate rejects the line.
pub uninterp spec fn ranges_of(text: Seq<char>) -> Option<Seq<usize>>;

/// Calls `range_parser::parse::<usize>`. The crate writes every range out,
/// counting up by one until it has passed the end, so the contract leaves
/// out the lines whose numbers or whose length would let the list outgrow
/// [`EXPANSION_LIMIT`]. It claims only that the numbers handed back are
/// those that the crate reads from this line.
#[verifier::external_body]
pub(crate) fn parse_ranges(text: &str) -> (numbers: Option<Vec<usize>>)
    requires
        exists|bound: nat| expands_within(text@, bound, EXPANSION_LIMIT as nat),
    ensures
        numbers.deep_view() == ranges_of(text@),
{
    range_parser::parse::<usize>(text).ok()
}

/// Whether each of `numbers` names one of `count` chapters, counting from
/// one.
pub open spec fn all_in_range(numbers: Seq<usize>, count: usize) -> bool {
    forall|i: int| 0 <= i < numbers.len() ==> 1 <= #[trigger] numbers[i] <= count
}

/// Whether `indices` rises strictly.
pub open spec fn rises(indices: Seq<usize>) -> bool {
    forall|i: int, j: int| 0 <= i < j < indices.len() ==> indices[i] < indices[j]
}

/// Whether one of `numbers` names the chapter at the position `index`.
pub open spec fn names_position(numbers: Seq<usize>, index: usize) -> bool {
    exists|k: int| 0 <= k < numbers.len() && #[trigger] numbers[k] == index + 1
}

/// Whether `indices` holds the position of the chapter that `number` names.
pub open spec fn holds_chapter(indices: Seq<usize>, number: usize) -> bool {
    exists|i: int| 0 <= i < indices.len() && #[trigger] indices[i] + 1 == number
}

/// Whether `indices` holds, each once and in rising order, the positions of
/// the chapters that `numbers` names, and no other: the position of the
/// chapter with the number `n` is `n - 1`.
pub open spec fn is_selection(indices: Seq<usize>, numbers: Seq<usize>) -> bool {
    &&& rises(indices)
    &&& forall|i: int| 0 <= i < indices.len() ==> names_position(numbers, #[trigger] indices[i])
    &&& forall|k: int| 0 <= k < numbers.len() ==> holds_chapter(indices, #[trigger] numbers[k])
}

/// Turns chapter numbers that count from one into positions in a catalog of
/// `count` chapters, each once and in rising order. A number that names no
/// chapter rejects the whole choice.
pub fn zero_based_selection(numbers: &Vec<usize>, count: usize) -> (result: Result<
    Vec<usize>,
    SelectionError,
>)
    ensures
        match result {
            Ok(indices) => all_in_range(numbers@, count) && is_selection(indices@, numbers@)
                && forall|i: int| 0 <= i < indices.len() ==> #[trigger] indices[i] < count,
            Err(error) => error == SelectionError::OutOfRange && !all_in_range(numbers@, count),
        },
{
    let mut indices: Vec<usize> = Vec::new();
    let mut i: usize = 0;
    while i < numbers.len()
        invariant
            i <= numbers.len(),
            all_in_range(numbers@.take(i as int), count),
            is_selection(indices@, numbers@.take(i as int)),
            forall|k: int| 0 <= k < indices.len() ==> #[trigger] indices[k] < count,
        decreases numbers.len() - i,
    {
        let number = numbers[i];
        if number == 0 || number > count {
            return Err(SelectionError::OutOfRange);
        }
        let index = number - 1;
        let mut p: usize = 0;
        while p < indices.len() && indices[p] < index
            invariant
                p <= indices.len(),
                forall|q: int| 0 <= q < p ==> indices[q] < index,
            decreases indices.len() - p,
        {
            p = p + 1;
        }
        let ghost before = indices@;
        let ghost seen = numbers@.take(i as int);
        let ghost grown = numbers@.take(i + 1);
        proof {
            assert(grown == seen.push(number));
            assert forall|k: int| 0 <= k < before.len() implies names_position(
                grown,
                #[trigger] before[k],
            ) by {
                let at = choose|at: int| 0 <= at < seen.len() && #[trigger] seen[at] == before[k] + 1;
                assert(grown[at] == before[k] + 1);
            }
        }
        if p < indices.len() && indices[p] == index {
            proof {
                assert forall|k: int| 0 <= k < grown.len() implies holds_chapter(
                    before,
                    #[trigger] grown[k],
                ) by {
                    if k < seen.len() {
                        assert(holds_chapter(before, seen[k]));
                    } else {
                        assert(before[p as int] + 1 == number);
                    }
                }
            }
        } else {
            indices.insert(p, index);
            proof {
                let after = indices@;
                assert(after == before.insert(p as int, index));
                assert forall|a: int, b: int| 0 <= a < b < after.len() implies after[a]
                    < after[b] by {
                    if a < p && b > p {
                        assert(after[a] == before[a]);
                        assert(after[b] == before[b - 1]);
                    }
                }
                assert forall|k: int| 0 <= k < after.len() implies names_position(
                    grown,
                    #[trigger] after[k],
                ) by {
                    if k == p {
                        assert(grown[i as int] == index + 1);
                    } else {
                        let old_k = if k < p { k } else { k - 1 };
                        assert(after[k] == before[old_k]);
                    }
                }
                assert forall|k: int| 0 <= k < grown.len() implies holds_chapter(
                    after,
                    #[trigger] grown[k],
                ) by {
                    if k < seen.len() {
                        assert(holds_chapter(before, seen[k]));
                        let at = choose|at: int|
                            0 <= at < before.len() && #[trigger] before[at] + 1 == seen[k];
                        let new_at = if at < p { at } else { at + 1 };
                        assert(after[new_at] + 1 == grown[k]);
                    } else {
                        assert(after[p as int] + 1 == grown[k]);
                    }
                }
                assert forall|k: int| 0 <= k < after.len() implies #[trigger] after[k] < count by {
                    if k != p {
                        let old_k = if k < p { k } else { k - 1 };
                        assert(after[k] == before[old_k]);
                    }
                }
            }
        }
        i = i + 1;
    }
    assert(numbers@.take(i as int) == numbers@);
    Ok(indices)
}

/// Two rising lists that hold the same positions are the same list.
proof fn rising_lists_agree(first: Seq<usize>, second: Seq<usize>)
    requires
        rises(first),
        rises(second),
        forall|i: int| 0 <= i < first.len() ==> second.contains(#[trigger] first[i]),
        forall|i: int| 0 <= i < second.len() ==> first.contains(#[trigger] second[i]),
    ensures
        first == second,
    decreases first.len() + second.len(),
{
    if first.len() == 0 {
        if second.len() > 0 {
            assert(first.contains(second[0]));
        }
        assert(first =~= second);
    } else if second.len() == 0 {
        assert(second.contains(first[0]));
    } else {
        let a = first.last();
        let b = second.last();
        assert(second.contains(a));
        assert(first.contains(b));
        let at_a = choose|k: int| 0 <= k < second.len() && second[k] == a;
        let at_b = choose|k: int| 0 <= k < first.len() && first[k] == b;
        assert(a <= b) by {
            if at_a < second.len() - 1 {
                assert(second[at_a] < second[second.len() - 1]);
            }
        }
        assert(b <= a) by {
            if at_b < first.len() - 1 {
                assert(first[at_b] < first[first.len() - 1]);
            }
        }
        let head = first.drop_last();
        let rest = second.drop_last();
        assert forall|i: int| 0 <= i < head.len() implies rest.contains(#[trigger] head[i]) by {
            assert(head[i] == first[i]);
            assert(first[i] < first[first.len() - 1]);
            assert(second.contains(first[i]));
            let k = choose|k: int| 0 <= k < second.len() && second[k] == first[i];
            assert(k < second.len() - 1);
            assert(rest[k] == head[i]);
        }
        assert forall|i: int| 0 <= i < rest.len() implies head.contains(#[trigger] rest[i]) by {
            assert(rest[i] == second[i]);
            assert(second[i] < second[second.len() - 1]);
            assert(first.contains(second[i]));
            let k = choose|k: int| 0 <= k < first.len() && first[k] == second[i];
            assert(k < first.len() - 1);
            assert(head[k] == rest[i]);
        }
        assert forall|i: int, j: int| 0 <= i < j < head.len() implies head[i] < head[j] by {
            assert(head[i] == first[i] && head[j] == first[j]);
        }
        assert forall|i: int, j: int| 0 <= i < j < rest.len() implies rest[i] < rest[j] by {
            assert(rest[i] == second[i] && rest[j] == second[j]);
        }
        rising_lists_agree(head, rest);
        assert(first == head.push(a));
        assert(second == rest.push(b));
    }
}

/// The numbers of a choice determine its positions: two lists that are both
/// the selection of the same numbers are the same list.
pub proof fn selection_unique(first: Seq<usize>, second: Seq<usize>, numbers: Seq<usize>)
    requires
        is_selection(first, numbers),
        is_selection(second, numbers),
    ensures
        first == second,
{
    assert forall|i: int| 0 <= i < first.len() implies second.contains(#[trigger] first[i]) by {
        assert(names_position(numbers, first[i]));
        let k = choose|k: int| 0 <= k < numbers.len() && #[trigger] numbers[k] == first[i] + 1;
        assert(holds_chapter(second, numbers[k]));
        let at = choose|at: int| 0 <= at < second.len() && #[trigger] second[at] + 1 == numbers[k];
        assert(second[at] == first[i]);
    }
    assert forall|i: int| 0 <= i < second.len() implies first.contains(#[trigger] second[i]) by {
        assert(names_position(numbers, second[i]));
        let k = choose|k: int| 0 <= k < numbers.len() && #[trigger] numbers[k] == second[i] + 1;
        assert(holds_chapter(first, numbers[k]));
        let at = choose|at: int| 0 <= at < first.len() && #[trigger] first[at] + 1 == numbers[k];
        assert(first[at] == second[i]);
    }
    rising_lists_agree(first, second);
}

/// Whether a line of `length` characters can be read against a catalog of
/// `count` chapters.
pub open spec fn is_readable(length: nat, count: usize) -> bool {
    (length + 1) * (count + 1) <= EXPANSION_LIMIT
}

/// Reads a line as a choice among `count` chapters.
///
/// The line is rejected as out of range where a number written in it is
/// beyond the last chapter or zero, as too long where its length times the
/// size of the catalog is beyond [`EXPANSION_LIMIT`], and as ill-formed
/// where it is no list of numbers and ranges. The numbers and the length are
/// looked at first, so that no range is ever written out beyond the catalog.
pub fn select_chapters(line: &str, count: usize) -> (result: Result<Vec<usize>, SelectionError>)
    ensures
        match result {
            Ok(indices) => numbers_within(line@, count as nat) && is_readable(line@.len(), count)
                && ranges_of(line@) is Some && all_in_range(ranges_of(line@).unwrap(), count)
                && is_selection(indices@, ranges_of(line@).unwrap()) && forall|i: int|
                0 <= i < indices.len() ==> #[trigger] indices[i] < count,
            Err(SelectionError::OutOfRange) => !numbers_within(line@, count as nat) || (is_readable(
                line@.len(),
                count,
            ) && ranges_of(line@) is Some && !all_in_range(ranges_of(line@).unwrap(), count)),
            Err(SelectionError::TooLong) => numbers_within(line@, count as nat) && !is_readable(
                line@.len(),
                count,
            ),
            Err(SelectionError::InvalidFormat) => numbers_within(line@, count as nat)
                && is_readable(line@.len(), count) && ranges_of(line@) is None,
        },
{
    if !numbers_within_bound(line, count) {
        return Err(SelectionError::OutOfRange);
    }
    let length = line.unicode_len();
    if length >= EXPANSION_LIMIT || count >= EXPANSION_LIMIT {
        assert((length + 1) * (count + 1) > EXPANSION_LIMIT) by (nonlinear_arith)
            requires
                length >= EXPANSION_LIMIT || count >= EXPANSION_LIMIT,
        ;
        return Err(SelectionError::TooLong);
    }
    assert((length + 1) * (count + 1) <= 0x100_0000 * 0x100_0000) by (nonlinear_arith)
        requires
            length < 0x100_0000,
            count < 0x100_0000,
    ;
    let items: u64 = (length as u64 + 1) * (count as u64 + 1);
    if items > EXPANSION_LIMIT as u64 {
        return Err(SelectionError::TooLong);
    }
    assert(expands_within(line@, count as nat, EXPANSION_LIMIT as nat));
    match parse_ranges(line) {
        Some(numbers) => {
            assert(numbers.deep_view() =~= numbers@);
            zero_based_selection(&numbers, count)
        },
        None => Err(SelectionError::InvalidFormat),
    }
}

} // verus!
