//! The order of the members of a chapter's archive.
//!
//! A directory hands out its files in no order that could be relied on, and
//! names do not sort as numbers do: `10_` comes before `9_` by name. The
//! members of an archive are therefore put in the order of the numbers that
//! their names begin with.

use vstd::prelude::*;
use vstd::seq_lib::*;
use crate::fetch::{padded_index, page_name_spec, zeros};
use crate::text::{
    chars_of,
    decimal_digits,
    decimal_digits_value,
    decimal_value,
    digit,
    is_digit,
};

verus! {

/// Whether the digits that `name` begins with are its first `length`
/// characters.
pub open spec fn is_digit_prefix(name: Seq<char>, length: int) -> bool {
    &&& 0 <= length <= name.len()
    &&& forall|i: int| 0 <= i < length ==> is_digit(#[trigger] name[i])
    &&& length < name.len() ==> !is_digit(name[length])
}

/// The digits that `name` begins with.
pub open spec fn leading_digits(name: Seq<char>) -> Seq<char> {
    name.take(choose|length: int| is_digit_prefix(name, length))
}

/// The rank of a file in its archive: the number that its name begins with.
/// A name that begins with no number, or with one beyond `u64::MAX`, ranks
/// last.
pub open spec fn page_rank(name: Seq<char>) -> nat {
    let digits = leading_digits(name);
    if digits.len() == 0 || decimal_value(digits) > u64::MAX {
        u64::MAX as nat
    } else {
        decimal_value(digits)
    }
}

/// A name begins with one run of digits only.
proof fn digit_prefix_unique(name: Seq<char>, a: int, b: int)
    requires
        is_digit_prefix(name, a),
        is_digit_prefix(name, b),
    ensures
        a == b,
{
    if a < b {
        assert(is_digit(name[a]));
    }
    if b < a {
        assert(is_digit(name[b]));
    }
}

/// The rank of the file called `name` in its archive.
pub fn rank_of(name: &str) -> (rank: u64)
    ensures
        rank == page_rank(name@),
{
    let chars = chars_of(name);
    let mut total: u64 = 0;
    let mut i: usize = 0;
    let mut beyond = false;
    while i < chars.len() && digit(chars[i])
        invariant
            i <= chars.len(),
            chars@ == name@,
            forall|k: int| 0 <= k < i ==> is_digit(#[trigger] chars@[k]),
            !beyond ==> total == decimal_value(chars@.take(i as int)),
            beyond ==> decimal_value(chars@.take(i as int)) > u64::MAX,
        decreases chars.len() - i,
    {
        let d: u64 = (chars[i] as u8 - 48) as u64;
        proof {
            assert(chars@.take(i + 1).drop_last() == chars@.take(i as int));
            assert(chars@.take(i + 1).last() == chars@[i as int]);
        }
        if !beyond {
            let grown = match total.checked_mul(10) {
                Some(tenfold) => tenfold.checked_add(d),
                None => None,
            };
            match grown {
                Some(value) => {
                    total = value;
                },
                None => {
                    beyond = true;
                },
            }
        }
        i = i + 1;
    }
    proof {
        assert(is_digit_prefix(name@, i as int));
        let chosen = choose|length: int| is_digit_prefix(name@, length);
        digit_prefix_unique(name@, i as int, chosen);
        assert(leading_digits(name@) == chars@.take(i as int));
    }
    if i == 0 || beyond {
        u64::MAX
    } else {
        total
    }
}

/// Zeros before a numeral do not change what it stands for.
proof fn leading_zeros_value(count: nat, digits: Seq<char>)
    ensures
        decimal_value(zeros(count) + digits) == decimal_value(digits),
    decreases digits.len(), count,
{
    let whole = zeros(count) + digits;
    if digits.len() > 0 {
        assert(whole.drop_last() == zeros(count) + digits.drop_last());
        assert(whole.last() == digits.last());
        leading_zeros_value(count, digits.drop_last());
    } else if count > 0 {
        assert(whole.drop_last() == zeros((count - 1) as nat) + digits);
        assert(whole.last() == '0');
        leading_zeros_value((count - 1) as nat, digits);
    } else {
        assert(whole == digits);
    }
}

/// A page that is stored under the name that the library gives it ranks in
/// its archive as it ranks in its chapter: the rank of the name of page
/// `index` is `index`, whatever its file is called.
pub proof fn page_name_rank(index: nat, total: nat, file: Seq<char>)
    requires
        index <= u64::MAX,
    ensures
        page_rank(page_name_spec(index, total, file)) == index,
{
    let digits = decimal_digits(index);
    let padded = padded_index(index, total);
    let name = page_name_spec(index, total, file);
    decimal_digits_value(index);
    if digits.len() < decimal_digits(total).len() {
        leading_zeros_value((decimal_digits(total).len() - digits.len()) as nat, digits);
    }
    assert(decimal_value(padded) == index);
    assert forall|i: int| 0 <= i < padded.len() implies is_digit(#[trigger] name[i]) by {
        assert(name[i] == padded[i]);
        if digits.len() < decimal_digits(total).len() {
            let count = decimal_digits(total).len() - digits.len();
            if i >= count {
                assert(padded[i] == digits[i - count]);
            }
        }
    }
    assert(name[padded.len() as int] == '_');
    assert(is_digit_prefix(name, padded.len() as int));
    let chosen = choose|length: int| is_digit_prefix(name, length);
    digit_prefix_unique(name, padded.len() as int, chosen);
    assert(name.take(padded.len() as int) == padded);
}

/// Whether `names` are in the order of their ranks.
pub open spec fn in_archive_order(names: Seq<Seq<char>>) -> bool {
    forall|i: int, j: int| 0 <= i < j < names.len() ==> page_rank(names[i]) <= page_rank(names[j])
}

/// The test for the rank `rank`.
pub open spec fn has_rank(rank: nat) -> spec_fn(Seq<char>) -> bool {
    |name: Seq<char>| page_rank(name) == rank
}

/// Those of `names` that have the rank `rank`, in the order in which they
/// stand.
pub open spec fn ranked(names: Seq<Seq<char>>, rank: nat) -> Seq<Seq<char>> {
    names.filter(has_rank(rank))
}

/// Where no name passes a test, none is left by it.
proof fn filter_leaves_none(names: Seq<Seq<char>>, test: spec_fn(Seq<char>) -> bool)
    requires
        forall|i: int| 0 <= i < names.len() ==> !test(#[trigger] names[i]),
    ensures
        names.filter(test) == Seq::<Seq<char>>::empty(),
    decreases names.len(),
{
    reveal(Seq::filter);
    if names.len() > 0 {
        assert(!test(names[names.len() - 1]));
        assert forall|i: int| 0 <= i < names.drop_last().len() implies !test(
            #[trigger] names.drop_last()[i],
        ) by {
            assert(names.drop_last()[i] == names[i]);
        }
        filter_leaves_none(names.drop_last(), test);
    }
}

/// What a new name does to the names of each rank, put behind the names
/// that rank no higher and before those that rank higher: it joins the names
/// of its own rank as their last, and leaves every other rank alone.
proof fn insertion_keeps_ranks(names: Seq<Seq<char>>, at: int, name: Seq<char>, rank: nat)
    requires
        0 <= at <= names.len(),
        forall|i: int| 0 <= i < at ==> page_rank(#[trigger] names[i]) <= page_rank(name),
        forall|i: int| at <= i < names.len() ==> page_rank(#[trigger] names[i]) > page_rank(name),
    ensures
        ranked(names.insert(at, name), rank) == if page_rank(name) == rank {
            ranked(names, rank).push(name)
        } else {
            ranked(names, rank)
        },
{
    let test = has_rank(rank);
    let head = names.take(at);
    let tail = names.skip(at);
    assert(names == head + tail);
    assert(names.insert(at, name) == head.push(name) + tail);
    Seq::filter_distributes_over_add(head, tail, test);
    Seq::filter_distributes_over_add(head.push(name), tail, test);
    assert(head.push(name).filter(test) == if test(name) {
        head.filter(test).push(name)
    } else {
        head.filter(test)
    }) by {
        reveal(Seq::filter);
        assert(head.push(name).drop_last() == head);
    }
    if page_rank(name) == rank {
        assert forall|i: int| 0 <= i < tail.len() implies !test(#[trigger] tail[i]) by {
            assert(tail[i] == names[at + i]);
        }
        filter_leaves_none(tail, test);
        assert(head.filter(test).push(name) + Seq::<Seq<char>>::empty() == head.filter(test).push(
            name,
        ));
        assert(head.filter(test) + Seq::<Seq<char>>::empty() == head.filter(test));
    }
}

/// Puts the names of the files of a chapter in the order in which they go
/// into its archive: by the number that each begins with, names of one rank
/// in the order in which they were given.
pub fn archive_order(names: &Vec<String>) -> (ordered: Vec<String>)
    ensures
        in_archive_order(ordered.deep_view()),
        ordered.deep_view().to_multiset() == names.deep_view().to_multiset(),
        forall|rank: nat|
            #[trigger] ranked(ordered.deep_view(), rank) == ranked(names.deep_view(), rank),
{
    let ghost given = names.deep_view();
    let mut ordered: Vec<String> = Vec::new();
    let mut ranks: Vec<u64> = Vec::new();
    let mut i: usize = 0;
    proof {
        assert(given.take(0) =~= ordered.deep_view());
    }
    while i < names.len()
        invariant
            i <= names.len(),
            given == names.deep_view(),
            ranks.len() == ordered.len(),
            forall|k: int| 0 <= k < ordered.len() ==> ranks[k] == page_rank(#[trigger] ordered[k]@),
            in_archive_order(ordered.deep_view()),
            ordered.deep_view().to_multiset() == given.take(i as int).to_multiset(),
            forall|rank: nat|
                #[trigger] ranked(ordered.deep_view(), rank) == ranked(given.take(i as int), rank),
        decreases names.len() - i,
    {
        let name = names[i].clone();
        let rank = rank_of(name.as_str());
        let mut at: usize = 0;
        while at < ranks.len() && ranks[at] <= rank
            invariant
                at <= ranks.len(),
                forall|k: int| 0 <= k < at ==> ranks[k] <= rank,
            decreases ranks.len() - at,
        {
            at = at + 1;
        }
        let ghost before = ordered.deep_view();
        proof {
            assert(given.take(i + 1) == given.take(i as int).push(name@));
            assert forall|k: int| 0 <= k < at implies page_rank(#[trigger] before[k]) <= page_rank(
                name@,
            ) by {
                assert(before[k] == ordered[k]@);
            }
            assert forall|k: int| at <= k < before.len() implies page_rank(#[trigger] before[k])
                > page_rank(name@) by {
                assert(before[k] == ordered[k]@);
                assert(ranks[at as int] > rank);
                assert(before[at as int] == ordered[at as int]@);
            }
        }
        ordered.insert(at, name);
        ranks.insert(at, rank);
        proof {
            let after = ordered.deep_view();
            assert(after =~= before.insert(at as int, name@));
            to_multiset_insert(before, at as int, name@);
            to_multiset_build(given.take(i as int), name@);
            assert forall|rank: nat| #[trigger]
                ranked(after, rank) == ranked(given.take(i + 1), rank) by {
                insertion_keeps_ranks(before, at as int, name@, rank);
                assert(ranked(given.take(i + 1), rank) == if page_rank(name@) == rank {
                    ranked(given.take(i as int), rank).push(name@)
                } else {
                    ranked(given.take(i as int), rank)
                }) by {
                    reveal(Seq::filter);
                    assert(given.take(i + 1).drop_last() == given.take(i as int));
                }
            }
            assert forall|a: int, b: int| 0 <= a < b < after.len() implies page_rank(after[a])
                <= page_rank(after[b]) by {
                let old_a = if a < at { a } else { a - 1 };
                let old_b = if b < at { b } else { b - 1 };
                if a != at {
                    assert(after[a] == before[old_a]);
                }
                if b != at {
                    assert(after[b] == before[old_b]);
                }
            }
            assert forall|k: int| 0 <= k < ordered.len() implies ranks[k] == page_rank(
                #[trigger] ordered[k]@,
            ) by {
                assert(after[k] == ordered[k]@);
            }
        }
        i = i + 1;
    }
    assert(given.take(i as int) == given);
    ordered
}

/// Whether no two of `names` have the same rank.
pub open spec fn ranks_differ(names: Seq<Seq<char>>) -> bool {
    forall|i: int, j: int|
        0 <= i < j < names.len() ==> page_rank(names[i]) != page_rank(names[j])
}

/// Names of which no two have the same rank have one archive order only:
/// two lists of the same names that are both in archive order are the same
/// list.
pub proof fn archive_order_unique(first: Seq<Seq<char>>, second: Seq<Seq<char>>)
    requires
        in_archive_order(first),
        in_archive_order(second),
        first.to_multiset() == second.to_multiset(),
        ranks_differ(first),
    ensures
        first == second,
    decreases first.len(),
{
    broadcast use vstd::multiset::group_multiset_axioms;

    to_multiset_len(first);
    to_multiset_len(second);
    if first.len() == 0 {
        assert(first =~= second);
    } else {
        let a = first.last();
        let b = second.last();
        to_multiset_contains(first, b);
        to_multiset_contains(second, b);
        to_multiset_contains(first, a);
        to_multiset_contains(second, a);
        assert(second.contains(b)) by {
            assert(second[second.len() - 1] == b);
        }
        assert(first.contains(a)) by {
            assert(first[first.len() - 1] == a);
        }
        let k = choose|k: int| 0 <= k < first.len() && first[k] == b;
        let m = choose|m: int| 0 <= m < second.len() && second[m] == a;
        assert(page_rank(first[k]) <= page_rank(a));
        assert(page_rank(second[m]) <= page_rank(b));
        assert(k == first.len() - 1);
        assert(a == b);
        let head = first.drop_last();
        let rest = second.drop_last();
        assert(first == head.push(a));
        assert(second == rest.push(a));
        to_multiset_build(head, a);
        to_multiset_build(rest, a);
        assert(head.to_multiset() =~= rest.to_multiset()) by {
            assert forall|name: Seq<char>| head.to_multiset().count(name) == rest.to_multiset().count(
                name,
            ) by {
                assert(head.to_multiset().insert(a).count(name) == rest.to_multiset().insert(
                    a,
                ).count(name));
            }
        }
        assert forall|i: int, j: int| 0 <= i < j < head.len() implies page_rank(head[i])
            <= page_rank(head[j]) by {
            assert(head[i] == first[i] && head[j] == first[j]);
        }
        assert forall|i: int, j: int| 0 <= i < j < rest.len() implies page_rank(rest[i])
            <= page_rank(rest[j]) by {
            assert(rest[i] == second[i] && rest[j] == second[j]);
        }
        assert forall|i: int, j: int| 0 <= i < j < head.len() implies page_rank(head[i])
            != page_rank(head[j]) by {
            assert(head[i] == first[i] && head[j] == first[j]);
        }
        archive_order_unique(head, rest);
    }
}

/// The names under which the pages of a chapter are stored, in the order of
/// the pages.
pub open spec fn page_names(files: Seq<Seq<char>>) -> Seq<Seq<char>> {
    Seq::new(files.len(), |i: int| page_name_spec(i as nat, files.len(), files[i]))
}

/// The archive of a chapter holds its pages in the order of the manifest,
/// in whatever order the directory hands out the stored pages: any list of
/// the stored names that is in archive order is the list of the names in
/// the order of the pages.
pub proof fn archive_follows_manifest(files: Seq<Seq<char>>, ordered: Seq<Seq<char>>)
    requires
        files.len() <= u64::MAX,
        in_archive_order(ordered),
        ordered.to_multiset() == page_names(files).to_multiset(),
    ensures
        ordered == page_names(files),
{
    let names = page_names(files);
    assert forall|i: int| 0 <= i < names.len() implies page_rank(#[trigger] names[i]) == i by {
        page_name_rank(i as nat, files.len(), files[i]);
    }
    archive_order_unique(names, ordered);
}

} // verus!
