//! The `Range` request header.
//!
//! ```text
//! Range                   = byte-ranges-specifier / other-ranges-specifier
//! other-ranges-specifier  = other-range-unit "=" other-range-set
//! byte-ranges-specifier   = "bytes" "=" byte-range-set
//! byte-range-set          = 1#( byte-range-spec / suffix-byte-range-spec )
//! byte-range-spec         = first-byte-pos "-" [ last-byte-pos ]
//! suffix-byte-range-spec  = "-" suffix-length
//! ```
//!
//! The grammar is stated over the characters of the header value
//! ([`parse_range`]), and so is the text of a header ([`range_text`]).

use crate::decimal::{
    decimal_digits, is_digit, lemma_decimal_digits, lemma_digits_read_back, parse_decimal,
    parse_u64, push_decimal,
};
use crate::error::ParseError;
use vstd::prelude::*;
use vstd::string::{StrSliceExecFns, StringExecFns};

verus! {

/// One range of bytes of a `Range: bytes=...` header.
#[derive(Copy, Clone, Debug, PartialEq, Eq, Structural)]
pub enum ByteRangeSpec {
    /// All bytes from the first to the second position, both included: `x-y`.
    FromTo(u64, u64),
    /// All bytes from a position on: `x-`.
    AllFrom(u64),
    /// The last bytes, this many: `-x`.
    Last(u64),
}

/// A `Range` header.
#[derive(Clone, Debug, PartialEq)]
pub enum Range {
    /// Ranges of bytes.
    Bytes(Vec<ByteRangeSpec>),
    /// Ranges in another unit: the unit, then the ranges as they are written.
    Unregistered(String, String),
}

/// A `Range` header, as the contracts see it.
pub ghost enum RangeView {
    Bytes(Seq<ByteRangeSpec>),
    Unregistered(Seq<char>, Seq<char>),
}

impl View for Range {
    type V = RangeView;

    open spec fn view(&self) -> RangeView {
        match *self {
            Range::Bytes(ranges) => RangeView::Bytes(ranges@),
            Range::Unregistered(unit, set) => RangeView::Unregistered(unit@, set@),
        }
    }
}

/// The bytes that `spec` selects of a representation that is `full_length`
/// bytes long, first and last position both included, if it selects any.
///
/// Nothing can be selected of an empty representation. A range from a
/// position must begin inside the representation and not after its own end;
/// it ends at its end or at the last byte, whichever comes first. A suffix
/// must not be empty, and is the whole representation if that is shorter.
pub open spec fn satisfiable_range(spec: ByteRangeSpec, full_length: u64) -> Option<(u64, u64)> {
    if full_length == 0 {
        None
    } else {
        match spec {
            ByteRangeSpec::FromTo(from, to) => if from < full_length && from <= to {
                Some((from, if to < full_length - 1 {
                    to
                } else {
                    (full_length - 1) as u64
                }))
            } else {
                None
            },
            ByteRangeSpec::AllFrom(from) => if from < full_length {
                Some((from, (full_length - 1) as u64))
            } else {
                None
            },
            ByteRangeSpec::Last(last) => if last > 0 {
                Some((if last > full_length {
                    0
                } else {
                    (full_length - last) as u64
                }, (full_length - 1) as u64))
            } else {
                None
            },
        }
    }
}

/// Every selection lies inside the representation, and begins no later than
/// it ends.
pub proof fn lemma_satisfiable_range_is_inside(spec: ByteRangeSpec, full_length: u64)
    ensures
        match satisfiable_range(spec, full_length) {
            Some((from, to)) => from <= to < full_length,
            None => true,
        },
{
}

/// The text of one range of bytes.
pub open spec fn spec_text(spec: ByteRangeSpec) -> Seq<char> {
    match spec {
        ByteRangeSpec::FromTo(from, to) => decimal_digits(from as nat) + seq!['-'] + decimal_digits(
            to as nat,
        ),
        ByteRangeSpec::AllFrom(from) => decimal_digits(from as nat) + seq!['-'],
        ByteRangeSpec::Last(last) => seq!['-'] + decimal_digits(last as nat),
    }
}

/// The texts of ranges of bytes, with a comma between each two.
pub open spec fn set_text(specs: Seq<ByteRangeSpec>) -> Seq<char>
    decreases specs.len(),
{
    if specs.len() == 0 {
        Seq::empty()
    } else if specs.len() == 1 {
        spec_text(specs[0])
    } else {
        set_text(specs.drop_last()) + seq![','] + spec_text(specs.last())
    }
}

/// The unit of ranges of bytes.
pub open spec fn bytes_unit() -> Seq<char> {
    seq!['b', 'y', 't', 'e', 's']
}

/// The text of a `Range` header: the unit, `=`, and the ranges.
pub open spec fn range_text(range: RangeView) -> Seq<char> {
    match range {
        RangeView::Bytes(specs) => bytes_unit() + seq!['='] + set_text(specs),
        RangeView::Unregistered(unit, set) => unit + seq!['='] + set,
    }
}

/// Whether `c` is white space.
pub open spec fn is_space(c: char) -> bool {
    let n = c as u32;
    ||| 0x09 <= n <= 0x0d
    ||| n == 0x20
    ||| n == 0x85
    ||| n == 0xa0
    ||| n == 0x1680
    ||| 0x2000 <= n <= 0x200a
    ||| n == 0x2028
    ||| n == 0x2029
    ||| n == 0x202f
    ||| n == 0x205f
    ||| n == 0x3000
}

/// `s` without the white space at its beginning.
pub open spec fn trim_start(s: Seq<char>) -> Seq<char>
    decreases s.len(),
{
    if s.len() > 0 && is_space(s[0]) {
        trim_start(s.skip(1))
    } else {
        s
    }
}

/// `s` without the white space at its end.
pub open spec fn trim_end(s: Seq<char>) -> Seq<char>
    decreases s.len(),
{
    if s.len() > 0 && is_space(s.last()) {
        trim_end(s.drop_last())
    } else {
        s
    }
}

/// `s` without the white space at its beginning and at its end.
pub open spec fn trim(s: Seq<char>) -> Seq<char> {
    trim_end(trim_start(s))
}

/// Where `c` first stands in `s`, if it does.
pub open spec fn first_index(s: Seq<char>, c: char) -> Option<int>
    decreases s.len(),
{
    if s.len() == 0 {
        None
    } else if s[0] == c {
        Some(0)
    } else {
        match first_index(s.skip(1), c) {
            Some(i) => Some(i + 1),
            None => None,
        }
    }
}

/// One range of bytes, read from `s`: what stands before and after the
/// first `-`, of which one may be missing; where both are there, the first
/// must not be greater than the second.
pub open spec fn parse_spec(s: Seq<char>) -> Option<ByteRangeSpec> {
    match first_index(s, '-') {
        None => None,
        Some(dash) => {
            let start = s.take(dash);
            let end = s.skip(dash + 1);
            if start.len() == 0 {
                match parse_u64(end) {
                    Some(last) => Some(ByteRangeSpec::Last(last)),
                    None => None,
                }
            } else if end.len() == 0 {
                match parse_u64(start) {
                    Some(from) => Some(ByteRangeSpec::AllFrom(from)),
                    None => None,
                }
            } else {
                match (parse_u64(start), parse_u64(end)) {
                    (Some(from), Some(to)) => if from <= to {
                        Some(ByteRangeSpec::FromTo(from, to))
                    } else {
                        None
                    },
                    _ => None,
                }
            }
        },
    }
}

/// What one member of a list contributes: the range that it is, once the
/// white space around it is taken away, or nothing if it is none.
pub open spec fn parse_member(s: Seq<char>) -> Seq<ByteRangeSpec> {
    match parse_spec(trim(s)) {
        Some(spec) => seq![spec],
        None => Seq::empty(),
    }
}

/// The ranges of bytes in a list with commas, in their order. Members that
/// are no ranges are left out.
pub open spec fn parse_set(s: Seq<char>) -> Seq<ByteRangeSpec>
    decreases s.len(),
{
    match first_index(s, ',') {
        None => parse_member(s),
        Some(comma) => if 0 <= comma < s.len() {
            parse_member(s.take(comma)) + parse_set(s.skip(comma + 1))
        } else {
            parse_member(s)
        },
    }
}

/// A `Range` header, read from its value `s`: a unit, `=`, and the ranges.
/// With the unit `bytes` at least one range of bytes must be there. With
/// another unit, neither the unit nor the ranges may be empty.
pub open spec fn parse_range(s: Seq<char>) -> Option<RangeView> {
    match first_index(s, '=') {
        None => None,
        Some(eq) => {
            let unit = s.take(eq);
            let set = s.skip(eq + 1);
            if unit == bytes_unit() {
                let specs = parse_set(set);
                if specs.len() == 0 {
                    None
                } else {
                    Some(RangeView::Bytes(specs))
                }
            } else if unit.len() > 0 && set.len() > 0 {
                Some(RangeView::Unregistered(unit, set))
            } else {
                None
            }
        },
    }
}

/// Where `first_index` finds something, it is inside the text, the
/// character stands there, and it stands nowhere before.
pub proof fn lemma_first_index(s: Seq<char>, c: char)
    ensures
        match first_index(s, c) {
            Some(i) => 0 <= i < s.len() && s[i] == c && forall|j: int|
                0 <= j < i ==> s[j] != c,
            None => forall|j: int| 0 <= j < s.len() ==> s[j] != c,
        },
    decreases s.len(),
{
    if s.len() > 0 && s[0] != c {
        lemma_first_index(s.skip(1), c);
        match first_index(s.skip(1), c) {
            Some(i) => {
                assert forall|j: int| 0 <= j < i + 1 implies s[j] != c by {
                    if j > 0 {
                        assert(s.skip(1)[j - 1] == s[j]);
                    }
                }
            },
            None => {
                assert forall|j: int| 0 <= j < s.len() implies s[j] != c by {
                    if j > 0 {
                        assert(s.skip(1)[j - 1] == s[j]);
                    }
                }
            },
        }
    }
}

/// A position at which the character stands, and before which it does not,
/// is what `first_index` finds.
pub proof fn lemma_first_index_is(s: Seq<char>, c: char, i: int)
    requires
        0 <= i < s.len(),
        s[i] == c,
        forall|j: int| 0 <= j < i ==> s[j] != c,
    ensures
        first_index(s, c) == Some(i),
    decreases i,
{
    if i > 0 {
        assert forall|j: int| 0 <= j < i - 1 implies #[trigger] s.skip(1)[j] != c by {
            assert(s.skip(1)[j] == s[j + 1]);
        }
        lemma_first_index_is(s.skip(1), c, i - 1);
    }
}

/// A text in which the character stands nowhere has no first index of it.
pub proof fn lemma_first_index_none(s: Seq<char>, c: char)
    requires
        forall|j: int| 0 <= j < s.len() ==> s[j] != c,
    ensures
        first_index(s, c) is None,
    decreases s.len(),
{
    if s.len() > 0 {
        assert forall|j: int| 0 <= j < s.skip(1).len() implies #[trigger] s.skip(1)[j] != c by {
            assert(s.skip(1)[j] == s[j + 1]);
        }
        lemma_first_index_none(s.skip(1), c);
    }
}

/// What is written of a range of bytes reads back as the range, if it is
/// one that can be read: a range from a position to another does not end
/// before it begins.
pub proof fn lemma_spec_text_reads_back(spec: ByteRangeSpec)
    requires
        spec matches ByteRangeSpec::FromTo(from, to) ==> from <= to,
    ensures
        parse_spec(spec_text(spec)) == Some(spec),
        spec_text(spec).len() >= 2,
        forall|i: int|
            0 <= i < spec_text(spec).len() ==> !is_space(#[trigger] spec_text(spec)[i])
                && spec_text(spec)[i] != ',',
{
    let text = spec_text(spec);
    match spec {
        ByteRangeSpec::FromTo(from, to) => {
            let a = decimal_digits(from as nat);
            let b = decimal_digits(to as nat);
            lemma_decimal_digits(from as nat);
            lemma_decimal_digits(to as nat);
            lemma_digits_read_back(from);
            lemma_digits_read_back(to);
            assert(text[a.len() as int] == '-');
            assert forall|j: int| 0 <= j < a.len() implies text[j] != '-' by {
                assert(is_digit(a[j]));
            }
            lemma_first_index_is(text, '-', a.len() as int);
            assert(text.take(a.len() as int) =~= a);
            assert(text.skip(a.len() as int + 1) =~= b);
            assert forall|i: int| 0 <= i < text.len() implies !is_space(#[trigger] text[i])
                && text[i] != ',' by {
                if i < a.len() {
                    assert(is_digit(a[i]));
                } else if i > a.len() {
                    assert(text[i] == b[i - a.len() - 1]);
                    assert(is_digit(b[i - a.len() - 1]));
                }
            }
        },
        ByteRangeSpec::AllFrom(from) => {
            let a = decimal_digits(from as nat);
            lemma_decimal_digits(from as nat);
            lemma_digits_read_back(from);
            assert(text[a.len() as int] == '-');
            assert forall|j: int| 0 <= j < a.len() implies text[j] != '-' by {
                assert(is_digit(a[j]));
            }
            lemma_first_index_is(text, '-', a.len() as int);
            assert(text.take(a.len() as int) =~= a);
            assert(text.skip(a.len() as int + 1) =~= Seq::<char>::empty());
            assert forall|i: int| 0 <= i < text.len() implies !is_space(#[trigger] text[i])
                && text[i] != ',' by {
                if i < a.len() {
                    assert(is_digit(a[i]));
                }
            }
        },
        ByteRangeSpec::Last(last) => {
            let b = decimal_digits(last as nat);
            lemma_decimal_digits(last as nat);
            lemma_digits_read_back(last);
            assert(text[0] == '-');
            lemma_first_index_is(text, '-', 0);
            assert(text.take(0) =~= Seq::<char>::empty());
            assert(text.skip(1) =~= b);
            assert forall|i: int| 0 <= i < text.len() implies !is_space(#[trigger] text[i])
                && text[i] != ',' by {
                if i > 0 {
                    assert(text[i] == b[i - 1]);
                    assert(is_digit(b[i - 1]));
                }
            }
        },
    }
}

/// Whether `spec` can be read: a range from a position to another does not
/// end before it begins.
pub open spec fn readable(spec: ByteRangeSpec) -> bool {
    spec matches ByteRangeSpec::FromTo(from, to) ==> from <= to
}

/// The text of several ranges is the text of the first, a comma, and the
/// text of the others.
proof fn lemma_set_text_front(specs: Seq<ByteRangeSpec>)
    requires
        specs.len() >= 2,
    ensures
        set_text(specs) == spec_text(specs[0]) + seq![','] + set_text(specs.skip(1)),
    decreases specs.len(),
{
    let rest = specs.skip(1);
    if specs.len() == 2 {
        assert(specs.drop_last().len() == 1);
        assert(set_text(specs.drop_last()) == spec_text(specs[0]));
        assert(rest.len() == 1 && rest[0] == specs[1]);
        assert(set_text(rest) == spec_text(specs[1]));
    } else {
        lemma_set_text_front(specs.drop_last());
        assert(specs.drop_last().skip(1) =~= rest.drop_last());
        assert(rest.last() == specs.last());
        assert(specs.drop_last()[0] == specs[0]);
        assert(set_text(rest) == set_text(rest.drop_last()) + seq![','] + spec_text(rest.last()));
        assert(set_text(specs) =~= spec_text(specs[0]) + seq![','] + set_text(rest));
    }
}

/// What is written of ranges of bytes reads back as these ranges, in
/// their order, if each can be read.
pub proof fn lemma_set_text_reads_back(specs: Seq<ByteRangeSpec>)
    requires
        forall|i: int| 0 <= i < specs.len() ==> readable(#[trigger] specs[i]),
    ensures
        parse_set(set_text(specs)) == specs,
    decreases specs.len(),
{
    let text = set_text(specs);
    if specs.len() == 0 {
        assert(first_index(text, ',') is None);
        assert(trim(text) =~= text);
        assert(first_index(text, '-') is None);
        assert(parse_set(text) =~= specs);
    } else {
        let first = spec_text(specs[0]);
        assert(readable(specs[0]));
        lemma_spec_text_reads_back(specs[0]);
        assert(!is_space(first[0]) && !is_space(first.last()));
        assert(trim_start(first) == first);
        assert(trim(first) == first);
        assert(parse_member(first) =~= seq![specs[0]]);
        if specs.len() == 1 {
            assert(text == first);
            lemma_first_index_none(text, ',');
            assert(parse_set(text) =~= specs);
        } else {
            let rest = specs.skip(1);
            lemma_set_text_front(specs);
            assert forall|i: int| 0 <= i < rest.len() implies readable(#[trigger] rest[i]) by {
                assert(rest[i] == specs[i + 1]);
            }
            lemma_set_text_reads_back(rest);
            assert(text[first.len() as int] == ',');
            assert forall|j: int| 0 <= j < first.len() implies text[j] != ',' by {
                assert(text[j] == first[j]);
            }
            lemma_first_index_is(text, ',', first.len() as int);
            assert(text.take(first.len() as int) =~= first);
            assert(text.skip(first.len() as int + 1) =~= set_text(rest));
            assert(parse_set(text) == parse_member(first) + parse_set(set_text(rest)));
            assert(parse_set(text) =~= specs);
        }
    }
}

/// Whether `range` can be read from its text: it has at least one range of
/// bytes, each of which can be read; or it has a unit that is not empty, is
/// not `bytes` and holds no `=`, with ranges that are not empty.
pub open spec fn range_readable(range: RangeView) -> bool {
    match range {
        RangeView::Bytes(specs) => specs.len() > 0 && forall|i: int|
            0 <= i < specs.len() ==> readable(#[trigger] specs[i]),
        RangeView::Unregistered(unit, set) => unit.len() > 0 && set.len() > 0 && unit
            != bytes_unit() && forall|i: int| 0 <= i < unit.len() ==> unit[i] != '=',
    }
}

/// What is written of a `Range` header reads back as the header, if it is
/// one that can be read.
pub proof fn lemma_range_text_reads_back(range: RangeView)
    requires
        range_readable(range),
    ensures
        parse_range(range_text(range)) == Some(range),
{
    let text = range_text(range);
    match range {
        RangeView::Bytes(specs) => {
            let unit = bytes_unit();
            assert(text[5] == '=');
            assert forall|j: int| 0 <= j < 5 implies text[j] != '=' by {
                assert(text[j] == unit[j]);
            }
            lemma_first_index_is(text, '=', 5);
            assert(text.take(5) =~= unit);
            assert(text.skip(6) =~= set_text(specs));
            lemma_set_text_reads_back(specs);
        },
        RangeView::Unregistered(unit, set) => {
            assert(text[unit.len() as int] == '=');
            assert forall|j: int| 0 <= j < unit.len() implies text[j] != '=' by {
                assert(text[j] == unit[j]);
            }
            lemma_first_index_is(text, '=', unit.len() as int);
            assert(text.take(unit.len() as int) =~= unit);
            assert(text.skip(unit.len() as int + 1) =~= set);
        },
    }
}

/// Whether `c` is white space.
fn is_whitespace(c: char) -> (b: bool)
    ensures
        b == is_space(c),
{
    let n: u32 = c as u32;
    (0x09 <= n && n <= 0x0d) || n == 0x20 || n == 0x85 || n == 0xa0 || n == 0x1680 || (0x2000 <= n
        && n <= 0x200a) || n == 0x2028 || n == 0x2029 || n == 0x202f || n == 0x205f || n
        == 0x3000
}

/// Where `c` first stands in `s[from..to]`, counted from the start of `s`.
fn find(s: &Vec<char>, c: char, from: usize, to: usize) -> (found: Option<usize>)
    requires
        from <= to <= s.len(),
    ensures
        match first_index(s@.subrange(from as int, to as int), c) {
            Some(i) => found == Some((from + i) as usize) && from + i < to,
            None => found is None,
        },
{
    let ghost text = s@.subrange(from as int, to as int);
    let mut i = from;
    while i < to
        invariant
            from <= i <= to <= s.len(),
            text == s@.subrange(from as int, to as int),
            forall|j: int| 0 <= j < i - from ==> text[j] != c,
        decreases to - i,
    {
        if s[i] == c {
            proof {
                lemma_first_index_is(text, c, i - from);
            }
            return Some(i);
        }
        i = i + 1;
    }
    proof {
        lemma_first_index_none(text, c);
    }
    None
}

/// The bounds of `s[from..to]` without the white space around it.
fn trim_bounds(s: &Vec<char>, from: usize, to: usize) -> (bounds: (usize, usize))
    requires
        from <= to <= s.len(),
    ensures
        from <= bounds.0 <= bounds.1 <= to,
        s@.subrange(bounds.0 as int, bounds.1 as int) == trim(s@.subrange(from as int, to as int)),
{
    let mut a = from;
    while a < to && is_whitespace(s[a])
        invariant
            from <= a <= to <= s.len(),
            trim_start(s@.subrange(from as int, to as int)) == trim_start(
                s@.subrange(a as int, to as int),
            ),
        decreases to - a,
    {
        assert(s@.subrange(a as int, to as int).skip(1) =~= s@.subrange(a + 1, to as int));
        a = a + 1;
    }
    let mut b = to;
    while a < b && is_whitespace(s[b - 1])
        invariant
            from <= a <= b <= to <= s.len(),
            trim_start(s@.subrange(from as int, to as int)) == s@.subrange(a as int, to as int),
            trim_end(s@.subrange(a as int, to as int)) == trim_end(
                s@.subrange(a as int, b as int),
            ),
        decreases b - a,
    {
        assert(s@.subrange(a as int, b as int).drop_last() =~= s@.subrange(a as int, b - 1));
        b = b - 1;
    }
    (a, b)
}

impl ByteRangeSpec {
    /// The bytes that this range selects of a representation that is
    /// `full_length` bytes long, as first and last position, both included;
    /// `None` if it selects none.
    pub fn to_satisfiable_range(&self, full_length: u64) -> (range: Option<(u64, u64)>)
        ensures
            range == satisfiable_range(*self, full_length),
            range matches Some((from, to)) ==> from <= to < full_length,
    {
        if full_length == 0 {
            return None;
        }
        match *self {
            ByteRangeSpec::FromTo(from, to) => {
                if from < full_length && from <= to {
                    let last = if to < full_length - 1 {
                        to
                    } else {
                        full_length - 1
                    };
                    Some((from, last))
                } else {
                    None
                }
            },
            ByteRangeSpec::AllFrom(from) => {
                if from < full_length {
                    Some((from, full_length - 1))
                } else {
                    None
                }
            },
            ByteRangeSpec::Last(last) => {
                if last > 0 {
                    if last > full_length {
                        Some((0, full_length - 1))
                    } else {
                        Some((full_length - last, full_length - 1))
                    }
                } else {
                    None
                }
            },
        }
    }

    /// Appends the text of this range to `out`.
    fn push_text(&self, out: &mut String)
        ensures
            final(out)@ == old(out)@ + spec_text(*self),
    {
        match *self {
            ByteRangeSpec::FromTo(from, to) => {
                push_decimal(out, from);
                out.append("-");
                push_decimal(out, to);
            },
            ByteRangeSpec::AllFrom(from) => {
                push_decimal(out, from);
                out.append("-");
            },
            ByteRangeSpec::Last(last) => {
                out.append("-");
                push_decimal(out, last);
            },
        }
        proof {
            reveal_strlit("-");
            assert("-"@ =~= seq!['-']);
            assert(final(out)@ =~= old(out)@ + spec_text(*self));
        }
    }

    /// The text of this range: `x-y`, `x-` or `-x`.
    pub fn to_string(&self) -> (text: String)
        ensures
            text@ == spec_text(*self),
    {
        let mut out = String::new();
        self.push_text(&mut out);
        assert(out@ =~= spec_text(*self));
        out
    }

    /// Reads one range of bytes. Anything that is none is a `Header` error.
    pub fn from_str(s: &str) -> (spec: Result<ByteRangeSpec, ParseError>)
        ensures
            match parse_spec(s@) {
                Some(parsed) => spec == Ok::<ByteRangeSpec, ParseError>(parsed),
                None => spec == Err::<ByteRangeSpec, ParseError>(ParseError::Header),
            },
    {
        let chars = chars_of(s);
        assert(chars@.subrange(0, chars@.len() as int) =~= s@);
        match parse_spec_in(&chars, 0, chars.len()) {
            Some(parsed) => Ok(parsed),
            None => Err(ParseError::Header),
        }
    }
}

/// The characters of `s`.
fn chars_of(s: &str) -> (chars: Vec<char>)
    ensures
        chars@ == s@,
{
    let mut chars: Vec<char> = Vec::new();
    for c in it: s.chars()
        invariant
            chars@ == it.seq().take(it.index() as int),
            it.seq() == s@,
    {
        chars.push(c);
    }
    chars
}

/// Reads one range of bytes from `s[from..to]`.
fn parse_spec_in(s: &Vec<char>, from: usize, to: usize) -> (spec: Option<ByteRangeSpec>)
    requires
        from <= to <= s.len(),
    ensures
        spec == parse_spec(s@.subrange(from as int, to as int)),
{
    let ghost text = s@.subrange(from as int, to as int);
    match find(s, '-', from, to) {
        None => None,
        Some(dash) => {
            proof {
                lemma_first_index(text, '-');
                assert(text.take(dash - from) =~= s@.subrange(from as int, dash as int));
                assert(text.skip(dash - from + 1) =~= s@.subrange(dash + 1, to as int));
            }
            if dash == from {
                match parse_decimal(s, dash + 1, to) {
                    Some(last) => Some(ByteRangeSpec::Last(last)),
                    None => None,
                }
            } else if dash + 1 == to {
                match parse_decimal(s, from, dash) {
                    Some(first) => Some(ByteRangeSpec::AllFrom(first)),
                    None => None,
                }
            } else {
                match (parse_decimal(s, from, dash), parse_decimal(s, dash + 1, to)) {
                    (Some(first), Some(last)) => {
                        if first <= last {
                            Some(ByteRangeSpec::FromTo(first, last))
                        } else {
                            None
                        }
                    },
                    _ => None,
                }
            }
        },
    }
}

/// Reads the ranges of bytes in `s[from..]`, a list with commas.
fn parse_set_in(s: &Vec<char>, from: usize) -> (specs: Vec<ByteRangeSpec>)
    requires
        from <= s.len(),
    ensures
        specs@ == parse_set(s@.subrange(from as int, s.len() as int)),
{
    let to = s.len();
    let ghost text = s@.subrange(from as int, to as int);
    let mut specs: Vec<ByteRangeSpec> = Vec::new();
    let mut pos = from;
    loop
        invariant
            from <= pos <= to == s.len(),
            text == s@.subrange(from as int, to as int),
            parse_set(text) == specs@ + parse_set(s@.subrange(pos as int, to as int)),
        decreases to - pos,
    {
        let ghost rest = s@.subrange(pos as int, to as int);
        let found = find(s, ',', pos, to);
        let end = match found {
            Some(comma) => comma,
            None => to,
        };
        proof {
            lemma_first_index(rest, ',');
            assert(rest.take(end - pos) =~= s@.subrange(pos as int, end as int));
            if found is None {
                assert(s@.subrange(pos as int, end as int) =~= rest);
            } else {
                assert(rest.skip(end - pos + 1) =~= s@.subrange(end + 1, to as int));
            }
        }
        let (a, b) = trim_bounds(s, pos, end);
        let ghost before = specs@;
        match parse_spec_in(s, a, b) {
            Some(spec) => {
                specs.push(spec);
            },
            None => {},
        }
        assert(specs@ =~= before + parse_member(s@.subrange(pos as int, end as int)));
        match found {
            Some(comma) => {
                assert(parse_set(text) =~= specs@ + parse_set(s@.subrange(comma + 1, to as int)));
                pos = comma + 1;
            },
            None => {
                assert(parse_set(text) =~= specs@);
                return specs;
            },
        }
    }
}

/// Reads the ranges of bytes in a list with commas. Members that are no
/// ranges, empty ones among them, are left out.
pub fn from_comma_delimited(s: &str) -> (specs: Vec<ByteRangeSpec>)
    ensures
        specs@ == parse_set(s@),
{
    let chars = chars_of(s);
    assert(chars@.subrange(0, chars@.len() as int) =~= s@);
    parse_set_in(&chars, 0)
}

/// Whether `s[..to]` is the unit `bytes`.
fn is_bytes_unit(s: &Vec<char>, to: usize) -> (b: bool)
    requires
        to <= s.len(),
    ensures
        b == (s@.take(to as int) == bytes_unit()),
{
    let b = to == 5 && s[0] == 'b' && s[1] == 'y' && s[2] == 't' && s[3] == 'e' && s[4] == 's';
    proof {
        if b {
            assert(s@.take(to as int) =~= bytes_unit());
        } else if to == 5 {
            let unit = s@.take(to as int);
            assert(unit[0] == s[0] && unit[1] == s[1] && unit[2] == s[2] && unit[3] == s[3]
                && unit[4] == s[4]);
            assert(bytes_unit()[0] == 'b' && bytes_unit()[1] == 'y' && bytes_unit()[2] == 't'
                && bytes_unit()[3] == 'e' && bytes_unit()[4] == 's');
        } else {
            assert(s@.take(to as int).len() != bytes_unit().len());
        }
    }
    b
}

impl Range {
    /// The header for one range of bytes: `bytes=from-to`.
    pub fn bytes(from: u64, to: u64) -> (range: Range)
        ensures
            range@ == RangeView::Bytes(seq![ByteRangeSpec::FromTo(from, to)]),
    {
        let mut specs: Vec<ByteRangeSpec> = Vec::new();
        specs.push(ByteRangeSpec::FromTo(from, to));
        assert(specs@ =~= seq![ByteRangeSpec::FromTo(from, to)]);
        Range::Bytes(specs)
    }

    /// The header for several ranges of bytes, each given as first and last
    /// position: `bytes=from1-to1,from2-to2`.
    pub fn bytes_multi(ranges: Vec<(u64, u64)>) -> (range: Range)
        ensures
            range@ == RangeView::Bytes(
                Seq::new(
                    ranges@.len(),
                    |i: int| ByteRangeSpec::FromTo(ranges@[i].0, ranges@[i].1),
                ),
            ),
    {
        let mut specs: Vec<ByteRangeSpec> = Vec::new();
        let mut i: usize = 0;
        while i < ranges.len()
            invariant
                i <= ranges.len(),
                specs@.len() == i,
                forall|j: int|
                    0 <= j < i ==> specs@[j] == ByteRangeSpec::FromTo(ranges@[j].0, ranges@[j].1),
            decreases ranges.len() - i,
        {
            specs.push(ByteRangeSpec::FromTo(ranges[i].0, ranges[i].1));
            i = i + 1;
        }
        assert(specs@ =~= Seq::new(
            ranges@.len(),
            |i: int| ByteRangeSpec::FromTo(ranges@[i].0, ranges@[i].1),
        ));
        Range::Bytes(specs)
    }

    /// The text of the header: `bytes=` and the ranges with commas between
    /// them, or the unit, `=` and the ranges as they were written.
    pub fn to_string(&self) -> (text: String)
        ensures
            text@ == range_text(self@),
    {
        let mut out = String::new();
        match self {
            Range::Bytes(specs) => {
                out.append("bytes=");
                proof {
                    reveal_strlit("bytes=");
                    assert(out@ =~= bytes_unit() + seq!['=']);
                }
                let mut i: usize = 0;
                while i < specs.len()
                    invariant
                        i <= specs.len(),
                        out@ == bytes_unit() + seq!['='] + set_text(specs@.take(i as int)),
                    decreases specs.len() - i,
                {
                    let ghost before = out@;
                    if i != 0 {
                        out.append(",");
                    }
                    specs[i].push_text(&mut out);
                    proof {
                        reveal_strlit(",");
                        assert(","@ =~= seq![',']);
                        let done = specs@.take(i as int);
                        let next = specs@.take(i + 1);
                        assert(next.drop_last() =~= done);
                        assert(next.last() == specs@[i as int]);
                        if i == 0 {
                            assert(next[0] == specs@[0]);
                            assert(set_text(done) =~= Seq::<char>::empty());
                            assert(out@ =~= bytes_unit() + seq!['='] + set_text(next));
                        } else {
                            assert(out@ =~= bytes_unit() + seq!['='] + set_text(next));
                        }
                    }
                    i = i + 1;
                }
                assert(specs@.take(i as int) =~= specs@);
            },
            Range::Unregistered(unit, set) => {
                out.append(unit.as_str());
                out.append("=");
                out.append(set.as_str());
                proof {
                    reveal_strlit("=");
                    assert("="@ =~= seq!['=']);
                    assert(out@ =~= unit@ + seq!['='] + set@);
                }
            },
        }
        out
    }

    /// Reads a `Range` header from its value. Anything that is none is a
    /// `Header` error.
    pub fn from_str(s: &str) -> (range: Result<Range, ParseError>)
        ensures
            match parse_range(s@) {
                Some(parsed) => range matches Ok(r) && r@ == parsed,
                None => range matches Err(e) && e == ParseError::Header,
            },
    {
        let chars = chars_of(s);
        let len = chars.len();
        assert(chars@.subrange(0, len as int) =~= s@);
        match find(&chars, '=', 0, len) {
            None => Err(ParseError::Header),
            Some(eq) => {
                proof {
                    lemma_first_index(s@, '=');
                    assert(s@.skip(eq + 1) =~= chars@.subrange(eq + 1, len as int));
                }
                if is_bytes_unit(&chars, eq) {
                    let specs = parse_set_in(&chars, eq + 1);
                    if specs.len() == 0 {
                        Err(ParseError::Header)
                    } else {
                        Ok(Range::Bytes(specs))
                    }
                } else if eq > 0 && eq + 1 < len {
                    let unit = s.substring_char(0, eq).to_owned();
                    let set = s.substring_char(eq + 1, len).to_owned();
                    proof {
                        assert(unit@ =~= s@.take(eq as int));
                        assert(set@ =~= s@.skip(eq + 1));
                    }
                    Ok(Range::Unregistered(unit, set))
                } else {
                    Err(ParseError::Header)
                }
            },
        }
    }
}

impl std::str::FromStr for ByteRangeSpec {
    type Err = ParseError;

    /// Reads one range of bytes, as [`ByteRangeSpec::from_str`] does.
    /// Anything that is none is a `Header` error.
    fn from_str(s: &str) -> (spec: Result<ByteRangeSpec, ParseError>)
        ensures
            match parse_spec(s@) {
                Some(parsed) => spec == Ok::<ByteRangeSpec, ParseError>(parsed),
                None => spec == Err::<ByteRangeSpec, ParseError>(ParseError::Header),
            },
    {
        ByteRangeSpec::from_str(s)
    }
}

impl std::str::FromStr for Range {
    type Err = ParseError;

    /// Reads a `Range` header from its value, as [`Range::from_str`]
    /// does. Anything that is none is a `Header` error.
    fn from_str(s: &str) -> (range: Result<Range, ParseError>)
        ensures
            match parse_range(s@) {
                Some(parsed) => range matches Ok(r) && r@ == parsed,
                None => range matches Err(e) && e == ParseError::Header,
            },
    {
        Range::from_str(s)
    }
}

} // verus!
