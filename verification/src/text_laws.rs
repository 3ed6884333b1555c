//! What the functions on short texts do, character by character.
use vstd::prelude::*;
use crate::reading;
use crate::reading::Rounded;
use crate::text;

verus! {

// ---------------------------------------------------------------------------
// White space
// ---------------------------------------------------------------------------

/// There is nothing but white space in `t`.
pub open spec fn blank(t: Seq<char>) -> bool {
    forall|i: int| 0 <= i < t.len() ==> text::white_space(#[trigger] t[i])
}

/// `t` neither starts nor ends with white space.
pub open spec fn tight(t: Seq<char>) -> bool {
    t.len() > 0 ==> !text::white_space(t[0]) && !text::white_space(t[t.len() - 1])
}

/// White space at the start goes.
proof fn lemma_trimmed_start(before: Seq<char>, rest: Seq<char>)
    requires
        blank(before),
        rest.len() > 0 ==> !text::white_space(rest[0]),
    ensures
        text::trimmed_start(before + rest) == rest,
    decreases before.len(),
{
    if before.len() == 0 {
        assert(before + rest == rest);
    } else {
        assert((before + rest).first() == before[0]);
        assert((before + rest).drop_first() == before.drop_first() + rest);
        assert forall|i: int| 0 <= i < before.drop_first().len() implies text::white_space(
            #[trigger] before.drop_first()[i],
        ) by {
            assert(before.drop_first()[i] == before[i + 1]);
        }
        lemma_trimmed_start(before.drop_first(), rest);
    }
}

/// White space at the end goes.
proof fn lemma_trimmed_end(kept: Seq<char>, after: Seq<char>)
    requires
        blank(after),
        kept.len() > 0 ==> !text::white_space(kept[kept.len() - 1]),
    ensures
        text::trimmed_end(kept + after) == kept,
    decreases after.len(),
{
    if after.len() == 0 {
        assert(kept + after == kept);
    } else {
        assert((kept + after).last() == after[after.len() - 1]);
        assert((kept + after).drop_last() == kept + after.drop_last());
        assert forall|i: int| 0 <= i < after.drop_last().len() implies text::white_space(
            #[trigger] after.drop_last()[i],
        ) by {
            assert(after.drop_last()[i] == after[i]);
        }
        lemma_trimmed_end(kept, after.drop_last());
    }
}

/// White space at both ends goes, and nothing else.
pub proof fn lemma_trimmed(before: Seq<char>, kept: Seq<char>, after: Seq<char>)
    requires
        blank(before),
        tight(kept),
        blank(after),
    ensures
        text::trimmed(before + kept + after) == kept,
{
    if kept.len() > 0 {
        assert(before + kept + after == before + (kept + after));
        lemma_trimmed_start(before, kept + after);
        lemma_trimmed_end(kept, after);
    } else {
        let white = before + after;
        assert(before + kept + after == white + kept);
        assert forall|i: int| 0 <= i < white.len() implies text::white_space(
            #[trigger] white[i],
        ) by {
            if i < before.len() {
                assert(white[i] == before[i]);
            } else {
                assert(white[i] == after[i - before.len()]);
            }
        }
        lemma_trimmed_start(white, kept);
        lemma_trimmed_end(kept, kept);
        assert(kept + kept == kept);
    }
}

/// Trimming loses the white space at the two ends of a text and nothing else.
pub proof fn law_trimming_loses_only_white_space(
    before: Seq<char>,
    kept: Seq<char>,
    after: Seq<char>,
    whole: &str,
    part: &str,
)
    requires
        blank(before),
        tight(kept),
        blank(after),
        whole@ == before + kept + after,
        call_ensures(text::trim, (whole,), part),
    ensures
        part@ == kept,
{
    lemma_trimmed(before, kept, after);
}

// ---------------------------------------------------------------------------
// Searching
// ---------------------------------------------------------------------------

/// The characters of `part` stand in `t` one after the other, from position `i` on.
pub open spec fn stands_at(t: Seq<char>, part: Seq<char>, i: int) -> bool {
    &&& 0 <= i
    &&& i + part.len() <= t.len()
    &&& forall|k: int| 0 <= k < part.len() ==> t[i + k] == #[trigger] part[k]
}

/// The characters of `part` stand in `t` one after the other, somewhere.
pub open spec fn stands_in(t: Seq<char>, part: Seq<char>) -> bool {
    exists|i: int| #[trigger] stands_at(t, part, i)
}

/// A part that is found in a text stands there character by character.
pub proof fn lemma_occurs(t: Seq<char>, part: Seq<char>, i: int)
    ensures
        text::occurs_at(t, part, i) == stands_at(t, part, i),
{
    if text::occurs_at(t, part, i) {
        assert forall|k: int| 0 <= k < part.len() implies t[i + k] == #[trigger] part[k] by {
            assert(t.subrange(i, i + part.len())[k] == t[i + k]);
        }
    }
    if stands_at(t, part, i) {
        assert(t.subrange(i, i + part.len()) =~= part);
    }
}

/// A text holds a part if the part stands somewhere in it.
pub proof fn lemma_contains(t: Seq<char>, part: Seq<char>)
    ensures
        text::contains_text(t, part) == stands_in(t, part),
{
    assert forall|i: int| text::occurs_at(t, part, i) == #[trigger] stands_at(t, part, i) by {
        lemma_occurs(t, part, i);
    }
    if text::contains_text(t, part) {
        let i = choose|i: int| text::occurs_at(t, part, i);
        assert(stands_at(t, part, i));
    }
}

/// The position that is found is the first at which the part stands; none is found if the part
/// stands nowhere.
pub proof fn law_search_finds_the_first_place(t: &str, part: &str, place: Option<usize>)
    requires
        call_ensures(text::position_of, (t, part), place),
    ensures
        match place {
            Some(i) => stands_at(t@, part@, i as int) && forall|j: int|
                #[trigger] stands_at(t@, part@, j) ==> i <= j,
            None => !stands_in(t@, part@),
        },
{
    lemma_contains(t@, part@);
    assert forall|i: int| text::occurs_at(t@, part@, i) == #[trigger] stands_at(
        t@,
        part@,
        i,
    ) by {
        lemma_occurs(t@, part@, i);
    }
    if let Some(i) = place {
        assert(stands_at(t@, part@, i as int));
        assert forall|j: int| #[trigger] stands_at(t@, part@, j) implies i <= j by {
            assert(text::occurs_at(t@, part@, j));
        }
    }
}

/// A text holds a part if and only if the part stands somewhere in it.
pub proof fn law_text_holds_its_parts(t: &str, part: &str, found: bool)
    requires
        call_ensures(text::contains, (t, part), found),
    ensures
        found == stands_in(t@, part@),
{
    lemma_contains(t@, part@);
}

/// Where a mark first stands after `before`, splitting there gives back what is around it.
pub proof fn lemma_split(before: Seq<char>, mark: Seq<char>, after: Seq<char>)
    requires
        forall|j: int| #[trigger] stands_at(before + mark + after, mark, j) ==> before.len() <= j,
    ensures
        text::split_at_first(before + mark + after, mark) == Some((before, after)),
{
    let whole = before + mark + after;
    let n = before.len() as int;
    assert forall|k: int| 0 <= k < mark.len() implies whole[n + k] == #[trigger] mark[k] by {}
    assert(stands_at(whole, mark, n));
    assert forall|j: int| text::occurs_at(whole, mark, j) == #[trigger] stands_at(
        whole,
        mark,
        j,
    ) by {
        lemma_occurs(whole, mark, j);
    }
    assert(text::occurs_at(whole, mark, n));
    assert(forall|j: int| 0 <= j < n ==> !text::occurs_at(whole, mark, j)) by {
        assert forall|j: int| 0 <= j < n implies !text::occurs_at(whole, mark, j) by {
            lemma_occurs(whole, mark, j);
        }
    }
    let i = choose|i: int|
        text::occurs_at(whole, mark, i) && forall|j: int|
            0 <= j < i ==> !text::occurs_at(whole, mark, j);
    assert(i == n) by {
        if i < n {
            assert(stands_at(whole, mark, i));
        }
        if i > n {
            assert(!text::occurs_at(whole, mark, n));
        }
    }
    assert(whole.take(n) =~= before);
    assert(whole.skip(n + mark.len()) =~= after);
}

/// What a text is split into makes up the text again with the mark between, and the mark stands
/// nowhere before; a text is not split if the mark stands nowhere in it.
pub proof fn law_split_is_at_the_first_mark(
    t: &str,
    mark: &str,
    parts: Option<(&str, &str)>,
)
    requires
        call_ensures(text::split_once, (t, mark), parts),
    ensures
        match parts {
            Some((before, after)) => t@ == before@ + mark@ + after@ && forall|j: int|
                #[trigger] stands_at(t@, mark@, j) ==> before@.len() <= j,
            None => !stands_in(t@, mark@),
        },
{
    lemma_contains(t@, mark@);
    if let Some((before, after)) = parts {
        assert(stands_in(t@, mark@));
        let some = choose|i: int| #[trigger] stands_at(t@, mark@, i);
        let n = lemma_first_place(t@, mark@, some);
        let head = t@.take(n);
        let tail = t@.skip(n + mark@.len());
        assert(t@ =~= head + mark@ + tail) by {
            assert forall|k: int| 0 <= k < mark@.len() implies t@[n + k] == #[trigger] mark@[k] by {}
            assert forall|k: int| n <= k < n + mark@.len() implies #[trigger] t@[k] == mark@[k
                - n] by {
                assert(t@[n + (k - n)] == mark@[k - n]);
            }
        }
        lemma_split(head, mark@, tail);
    }
}

/// Of the places at which a part stands, one is the first.
proof fn lemma_first_place(t: Seq<char>, part: Seq<char>, some: int) -> (first: int)
    requires
        stands_at(t, part, some),
    ensures
        stands_at(t, part, first),
        forall|j: int| #[trigger] stands_at(t, part, j) ==> first <= j,
    decreases some,
{
    if exists|j: int| j < some && #[trigger] stands_at(t, part, j) {
        let j = choose|j: int| j < some && #[trigger] stands_at(t, part, j);
        lemma_first_place(t, part, j)
    } else {
        some
    }
}

// ---------------------------------------------------------------------------
// Numbers
// ---------------------------------------------------------------------------

/// What a character is worth as a decimal digit.
pub open spec fn worth(c: char) -> Option<nat> {
    if '0' <= c <= '9' {
        Some((c as nat - 48) as nat)
    } else {
        None
    }
}

/// One character is a number if it is a digit, and no character is none.
pub proof fn law_digit_is_read(t: &str, number: Option<u64>)
    requires
        t@.len() <= 1,
        call_ensures(text::parse_u64, (t,), number),
    ensures
        t@.len() == 0 ==> number is None,
        t@.len() == 1 ==> match worth(t@[0]) {
            Some(digit) => number == Some(digit as u64),
            None => number is None,
        },
{
    if t@.len() == 1 {
        if t@[0] == '+' {
            assert(t@.drop_first().len() == 0);
        } else {
            assert(t@.drop_last().len() == 0);
            assert(text::digits_value(t@.drop_last()) == 0);
            assert(text::digits_value(t@) == (t@[0] as nat - 48) as nat
                || !text::is_digit(t@[0]));
        }
    }
}

/// The digits of a text that has no more than it takes for a number.
proof fn lemma_number_in_push(t: Seq<char>, c: char)
    requires
        t.len() > 0,
        t.first() != '+',
    ensures
        text::number_in(t.push(c)) == (match (text::number_in(t), worth(c)) {
            (Some(value), Some(digit)) => if value * 10 + digit <= u64::MAX {
                Some((value * 10 + digit) as u64)
            } else {
                None
            },
            _ => None,
        }),
{
    let longer = t.push(c);
    assert(longer.first() == t.first());
    assert(longer.drop_last() == t);
    assert(longer.last() == c);
    let all = forall|i: int| 0 <= i < t.len() ==> text::is_digit(#[trigger] t[i]);
    if all && text::is_digit(c) {
        assert forall|i: int| 0 <= i < longer.len() implies text::is_digit(
            #[trigger] longer[i],
        ) by {
            if i < t.len() {
                assert(longer[i] == t[i]);
            }
        }
    } else if !all {
        let i = choose|i: int| 0 <= i < t.len() && !text::is_digit(#[trigger] t[i]);
        assert(longer[i] == t[i]);
    } else {
        assert(longer[t.len() as int] == c);
    }
}

/// A digit after a number makes it ten times as large, and adds what the digit is worth, as long
/// as that is at most `u64::MAX`; any other character after it, and any character after what is
/// no number, makes no number.
pub proof fn law_digit_after_a_number_is_read(
    t: &str,
    number: Option<u64>,
    c: char,
    longer: &str,
    larger: Option<u64>,
)
    requires
        t@.len() > 0,
        t@ != seq!['+'],
        longer@ == t@.push(c),
        call_ensures(text::parse_u64, (t,), number),
        call_ensures(text::parse_u64, (longer,), larger),
    ensures
        match (number, worth(c)) {
            (Some(value), Some(digit)) => larger == (if value * 10 + digit <= u64::MAX {
                Some((value * 10 + digit) as u64)
            } else {
                None
            }),
            _ => larger is None,
        },
{
    if t@.first() == '+' {
        let rest = t@.drop_first();
        assert(t@.len() > 1) by {
            if t@.len() == 1 {
                assert(t@ =~= seq!['+']);
            }
        }
        assert(longer@.first() == '+');
        assert(longer@.drop_first() =~= rest.push(c));
        if rest.first() == '+' {
            assert(!text::is_digit(rest[0]));
            assert(!text::is_digit(rest.push(c)[0]));
        } else {
            lemma_number_in_push(rest, c);
            assert(text::unsigned_part(rest) == rest);
            assert(text::unsigned_part(rest.push(c)) == rest.push(c));
        }
    } else {
        lemma_number_in_push(t@, c);
    }
}

/// One plus sign before a number changes nothing; it is no number by itself, nor is one before
/// another.
pub proof fn law_plus_sign_is_skipped(
    t: &str,
    number: Option<u64>,
    signed: &str,
    same: Option<u64>,
)
    requires
        signed@ == seq!['+'] + t@,
        call_ensures(text::parse_u64, (t,), number),
        call_ensures(text::parse_u64, (signed,), same),
    ensures
        t@.len() == 0 || t@[0] == '+' ==> same is None,
        t@.len() > 0 && t@[0] != '+' ==> same == number,
{
    assert(signed@.first() == '+');
    assert(signed@.drop_first() =~= t@);
    if t@.len() > 0 && t@[0] == '+' {
        assert(!text::is_digit(t@[0]));
    }
}

/// A number below ten is written as its digit; any other as the tenth part of it is written, with
/// the digit of what is left over after that.
pub proof fn law_number_is_written_digit_by_digit(
    number: u128,
    written: String,
    tenth: String,
)
    requires
        call_ensures(text::decimal, (number,), written),
        call_ensures(text::decimal, ((number / 10) as u128,), tenth),
    ensures
        number < 10 ==> written@.len() == 1 && written@[0] as nat == 48 + number,
        number >= 10 ==> {
            &&& written@.len() == tenth@.len() + 1
            &&& written@.take(tenth@.len() as int) == tenth@
            &&& written@[tenth@.len() as int] as nat == 48 + number % 10
        },
{
    if number >= 10 {
        assert(written@ == tenth@.push(text::digit_char((number % 10) as nat)));
        assert(written@.take(tenth@.len() as int) =~= tenth@);
    }
}

/// `shown` is `written` with spaces before it, as many as bring it to `width` characters.
pub open spec fn aligned(shown: Seq<char>, written: Seq<char>, width: nat) -> bool {
    let spaces = shown.len() - written.len();
    &&& spaces >= 0
    &&& shown.len() >= width
    &&& spaces > 0 ==> shown.len() == width
    &&& forall|i: int| 0 <= i < spaces ==> #[trigger] shown[i] == ' '
    &&& shown.skip(spaces) == written
}

/// A text that is padded is aligned to the right.
pub proof fn lemma_padded(written: Seq<char>, width: nat)
    ensures
        aligned(text::padded(written, width), written, width),
{
    let shown = text::padded(written, width);
    assert(shown.skip(shown.len() - written.len()) =~= written);
}

/// A field is its text with spaces before it, as many as bring it to its width.
pub proof fn law_field_is_filled_with_spaces(written: String, width: usize, shown: String)
    requires
        call_ensures(text::pad_left, (written, width), shown),
    ensures
        aligned(shown@, written@, width as nat),
{
    lemma_padded(written@, width as nat);
}

/// A rounded number is written as its digits, with a minus sign before them if it is below zero;
/// what is no finite number is written as a word.
pub proof fn law_rounded_number_is_written(rounded: Rounded, written: String, digits: String)
    requires
        call_ensures(reading::write_rounded, (rounded,), written),
        rounded matches Rounded::Number { magnitude, .. } ==> call_ensures(
            text::decimal,
            (magnitude,),
            digits,
        ),
    ensures
        match rounded {
            Rounded::Number { negative: false, .. } => written@ == digits@,
            Rounded::Number { negative: true, .. } => written@ == seq!['-'] + digits@,
            Rounded::Infinity { negative: false } => written@ == seq!['i', 'n', 'f'],
            Rounded::Infinity { negative: true } => written@ == seq!['-', 'i', 'n', 'f'],
            Rounded::NotANumber => written@ == seq!['N', 'a', 'N'],
        },
{
    reveal_strlit("-");
    reveal_strlit("-inf");
    reveal_strlit("inf");
    reveal_strlit("NaN");
    assert("-"@ =~= seq!['-']);
    assert("-inf"@ =~= seq!['-', 'i', 'n', 'f']);
    assert("inf"@ =~= seq!['i', 'n', 'f']);
    assert("NaN"@ =~= seq!['N', 'a', 'N']);
}

/// A number of tenths is written as its whole part, a point and the digit of the tenths that are
/// left over.
pub proof fn law_tenths_are_written_after_a_point(tenths: u64, written: String, whole: String)
    requires
        call_ensures(reading::write_tenths, (tenths,), written),
        call_ensures(text::decimal, ((tenths / 10) as u128,), whole),
    ensures
        written@.len() == whole@.len() + 2,
        written@.take(whole@.len() as int) == whole@,
        written@[whole@.len() as int] == '.',
        written@[(whole@.len() + 1) as int] as nat == 48 + tenths % 10,
{
    reveal_strlit(".");
    let n = whole@.len() as int;
    assert(text::decimal_digits((tenths % 10) as nat).len() == 1);
    assert(written@.take(n) =~= whole@);
}

/// Bytes may be rounded to a number of tenths of a megabyte that they are within half a tenth of;
/// beyond what floating point reckons exactly, to any.
pub proof fn law_bytes_are_rounded_to_the_nearest_tenth(bytes: u64, tenths: u64, yes: bool)
    requires
        call_ensures(reading::rounds_to, (bytes, tenths), yes),
    ensures
        bytes <= 4_503_599_627_370_496 ==> yes == (-50_000 <= tenths * 100_000 - bytes <= 50_000),
        bytes > 4_503_599_627_370_496 ==> yes,
{
}

} // verus!
