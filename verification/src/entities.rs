//! The entity text decoder: parses the embedded curly-brace mini-language
//! describing placed objects into an ordered sequence of property sets,
//! with value-type inference.
//!
//! The text is a sequence of lines. A line holding only `{` opens a new
//! property set, a line holding only `}` closes it, and inside an open set
//! a line contributes the second quote-delimited segment as key and the
//! fourth as value; a line that lacks them, or stands outside any open
//! set, is silently skipped. A value that parses as one float literal is
//! numeric; one that splits into exactly three whitespace-separated float
//! literals is a 3-vector; anything else stays text. A later duplicate key
//! overwrites the earlier value in place.
//!
//! The whole parse is specified as a fold over the bytes of the text
//! ([`spec_parse_entities`]); the executable parser is proved to compute
//! exactly that fold.

use vstd::prelude::*;
use vstd::string::StringSliceAdditionalSpecFns;
use vstd::utf8::decode_utf8;
use vstd::utf8::encode_utf8;
use vstd::utf8::valid_utf8;

verus! {

broadcast use vstd::utf8::encode_utf8_decode_utf8, vstd::utf8::decode_utf8_encode_utf8;

/// One property value: text, a float literal kept verbatim, or three
/// whitespace-separated float literals kept verbatim. The numeric tokens
/// are stored as their source text so no floating-point rounding is
/// baked into the decoded structure.
#[derive(Debug, Clone, PartialEq, Eq)]
pub enum EntityValue {
    String(String),
    Number(String),
    Vec3(String, String, String),
}

/// The mathematical image of an [`EntityValue`].
pub enum EntityValueView {
    String(Seq<char>),
    Number(Seq<char>),
    Vec3(Seq<char>, Seq<char>, Seq<char>),
}

impl DeepView for EntityValue {
    type V = EntityValueView;

    open spec fn deep_view(&self) -> EntityValueView {
        match self {
            EntityValue::String(s) => EntityValueView::String(s@),
            EntityValue::Number(s) => EntityValueView::Number(s@),
            EntityValue::Vec3(x, y, z) => EntityValueView::Vec3(x@, y@, z@),
        }
    }
}

/// One placed object: an ordered list of key/value properties, keys
/// unique, insertion order preserved.
#[derive(Debug, Clone, PartialEq, Eq)]
pub struct Entity {
    pub props: Vec<(String, EntityValue)>,
}

impl DeepView for Entity {
    type V = Seq<(Seq<char>, EntityValueView)>;

    open spec fn deep_view(&self) -> Seq<(Seq<char>, EntityValueView)> {
        self.props.deep_view()
    }
}

/// ASCII code points used by the mini-language.
pub const NL: u8 = 10;

pub const CR: u8 = 13;

pub const QUOTE: u8 = 34;

pub const OPEN_BRACE: u8 = 123;

pub const CLOSE_BRACE: u8 = 125;

/// True for the ASCII whitespace bytes that separate vector components.
pub open spec fn is_ws(c: u8) -> bool {
    c == 32 || c == 9 || c == 10 || c == 11 || c == 12 || c == 13
}

pub open spec fn is_digit(c: u8) -> bool {
    48 <= c <= 57
}

pub open spec fn all_digits(s: Seq<u8>) -> bool {
    forall|i: int| 0 <= i < s.len() ==> is_digit(#[trigger] s[i])
}

/// ASCII lower-casing, enough for the keywords `inf` and `nan`.
pub open spec fn lower(c: u8) -> u8 {
    if 65 <= c <= 90 {
        (c + 32) as u8
    } else {
        c
    }
}

/// The sign-stripped remainder of a token.
pub open spec fn strip_sign(s: Seq<u8>) -> Seq<u8> {
    if s.len() > 0 && (s[0] == 43 || s[0] == 45) {
        s.drop_first()
    } else {
        s
    }
}

/// True for the case-insensitive keywords `inf`, `infinity` and `nan`.
pub open spec fn is_inf_nan(s: Seq<u8>) -> bool {
    (s.len() == 3 && lower(s[0]) == 105 && lower(s[1]) == 110 && lower(s[2]) == 102) || (s.len()
        == 8 && lower(s[0]) == 105 && lower(s[1]) == 110 && lower(s[2]) == 102 && lower(s[3])
        == 105 && lower(s[4]) == 110 && lower(s[5]) == 105 && lower(s[6]) == 116 && lower(s[7])
        == 121) || (s.len() == 3 && lower(s[0]) == 110 && lower(s[1]) == 97 && lower(s[2]) == 110)
}

/// A digit run, or a digit run with one dot somewhere in it, with at
/// least one digit on one side of the dot.
pub open spec fn is_mantissa(s: Seq<u8>) -> bool {
    (s.len() > 0 && all_digits(s)) || (exists|i: int|
        #![trigger s[i]]
        0 <= i < s.len() && s[i] == 46 && all_digits(s.take(i)) && all_digits(s.skip(i + 1))
            && s.len() > 1)
}

/// A digit run after an optional sign.
pub open spec fn is_exp_part(s: Seq<u8>) -> bool {
    strip_sign(s).len() > 0 && all_digits(strip_sign(s))
}

/// A mantissa, optionally followed by `e` or `E` and a signed digit run.
pub open spec fn is_number(s: Seq<u8>) -> bool {
    is_mantissa(s) || (exists|j: int|
        #![trigger s[j]]
        0 <= j < s.len() && (s[j] == 101 || s[j] == 69) && is_mantissa(s.take(j)) && is_exp_part(
            s.skip(j + 1),
        ))
}

/// The float-literal grammar the classifier uses: an optional sign, then
/// one of the keywords or a number.
pub open spec fn is_float_literal(s: Seq<u8>) -> bool {
    is_inf_nan(strip_sign(s)) || is_number(strip_sign(s))
}

/// A byte that is `e`, `E` or a dot rules the whole token out as a plain
/// or dotted digit run.
proof fn lemma_mantissa_no_e(s: Seq<u8>, j: int)
    requires
        0 <= j < s.len(),
        s[j] == 101 || s[j] == 69,
    ensures
        !is_mantissa(s),
{
    if is_mantissa(s) {
        if s.len() > 0 && all_digits(s) {
            assert(is_digit(s[j]));
        } else {
            let i = choose|i: int|
                #![trigger s[i]]
                0 <= i < s.len() && s[i] == 46 && all_digits(s.take(i)) && all_digits(
                    s.skip(i + 1),
                ) && s.len() > 1;
            if j < i {
                assert(s.take(i)[j] == s[j]);
                assert(is_digit(s.take(i)[j]));
            } else if j > i {
                assert(s.skip(i + 1)[j - i - 1] == s[j]);
                assert(is_digit(s.skip(i + 1)[j - i - 1]));
            }
        }
        assert(false);
    }
}

/// Checks a run for digits only.
fn check_digits(s: &[u8], from: usize, to: usize) -> (r: bool)
    requires
        from <= to <= s@.len(),
    ensures
        r == all_digits(s@.subrange(from as int, to as int)),
{
    let mut k: usize = from;
    while k < to
        invariant
            from <= k <= to <= s@.len(),
            forall|i: int| from <= i < k ==> is_digit(#[trigger] s@[i]),
        decreases to - k,
    {
        let c: u8 = s[k];
        if !(48 <= c && c <= 57) {
            proof {
                assert(s@.subrange(from as int, to as int)[k - from] == s@[k as int]);
            }
            return false;
        }
        k = k + 1;
    }
    proof {
        assert forall|i: int|
            0 <= i < s@.subrange(from as int, to as int).len() implies is_digit(
            #[trigger] s@.subrange(from as int, to as int)[i],
        ) by {
            assert(s@.subrange(from as int, to as int)[i] == s@[i + from]);
        }
    }
    true
}

/// ASCII lower-casing of one byte.
fn lower_byte(c: u8) -> (r: u8)
    ensures
        r == lower(c),
{
    if 65 <= c && c <= 90 {
        c + 32
    } else {
        c
    }
}

/// Checks the token between `from` and `to` against the keyword part of
/// the grammar.
fn check_inf_nan(s: &[u8], from: usize, to: usize) -> (r: bool)
    requires
        from <= to <= s@.len(),
    ensures
        r == is_inf_nan(s@.subrange(from as int, to as int)),
{
    let n: usize = to - from;
    let ghost t = s@.subrange(from as int, to as int);
    if n == 3 {
        let c0 = lower_byte(s[from]);
        let c1 = lower_byte(s[from + 1]);
        let c2 = lower_byte(s[from + 2]);
        proof {
            assert(t[0] == s@[from as int]);
            assert(t[1] == s@[from + 1]);
            assert(t[2] == s@[from + 2]);
        }
        (c0 == 105 && c1 == 110 && c2 == 102) || (c0 == 110 && c1 == 97 && c2 == 110)
    } else if n == 8 {
        let c0 = lower_byte(s[from]);
        let c1 = lower_byte(s[from + 1]);
        let c2 = lower_byte(s[from + 2]);
        let c3 = lower_byte(s[from + 3]);
        let c4 = lower_byte(s[from + 4]);
        let c5 = lower_byte(s[from + 5]);
        let c6 = lower_byte(s[from + 6]);
        let c7 = lower_byte(s[from + 7]);
        proof {
            assert forall|i: int| 0 <= i < 8 implies t[i] == s@[from + i] by {}
        }
        c0 == 105 && c1 == 110 && c2 == 102 && c3 == 105 && c4 == 110 && c5 == 105 && c6 == 116
            && c7 == 121
    } else {
        false
    }
}

/// Checks the token between `from` and `to` against the mantissa part of
/// the grammar.
fn check_mantissa(s: &[u8], from: usize, to: usize) -> (r: bool)
    requires
        from <= to <= s@.len(),
    ensures
        r == is_mantissa(s@.subrange(from as int, to as int)),
{
    let ghost t = s@.subrange(from as int, to as int);
    let mut k: usize = from;
    while k < to && s[k] != 46
        invariant
            from <= k <= to <= s@.len(),
            forall|i: int| from <= i < k ==> #[trigger] s@[i] != 46,
        decreases to - k,
    {
        k = k + 1;
    }
    if k == to {
        // no dot anywhere
        let r = to > from && check_digits(s, from, to);
        proof {
            if !r {
                assert(!(t.len() > 0 && all_digits(t)));
                assert forall|i: int|
                    !(0 <= i < t.len() && #[trigger] t[i] == 46 && all_digits(t.take(i))
                        && all_digits(t.skip(i + 1)) && t.len() > 1) by {
                    if 0 <= i < t.len() {
                        assert(t[i] == s@[from + i]);
                    }
                }
            }
        }
        r
    } else {
        let ghost di = k - from;
        proof {
            assert(t[di] == s@[k as int]);
            assert(t[di] == 46);
        }
        let digits_left = check_digits(s, from, k);
        let digits_right = check_digits(s, k + 1, to);
        let r = digits_left && digits_right && to - from > 1;
        proof {
            assert(t.take(di) =~= s@.subrange(from as int, k as int));
            assert(t.skip(di + 1) =~= s@.subrange(k + 1, to as int));
            if r {
                assert(0 <= di < t.len() && t[di] == 46 && all_digits(t.take(di)) && all_digits(
                    t.skip(di + 1),
                ) && t.len() > 1);
            } else {
                // the dot at di is the only candidate split
                assert(!(t.len() > 0 && all_digits(t))) by {
                    assert(!is_digit(t[di]));
                }
                assert forall|i: int|
                    !(0 <= i < t.len() && #[trigger] t[i] == 46 && all_digits(t.take(i))
                        && all_digits(t.skip(i + 1)) && t.len() > 1) by {
                    if 0 <= i < t.len() && t[i] == 46 && all_digits(t.take(i)) && all_digits(
                        t.skip(i + 1),
                    ) && t.len() > 1 {
                        if i < di {
                            assert(s@[from + i] == t[i]);
                            assert(false);
                        } else if i > di {
                            assert(t.take(i)[di] == t[di]);
                            assert(is_digit(t[di]));
                            assert(false);
                        } else {
                            assert(all_digits(t.take(di)) && all_digits(t.skip(di + 1)));
                            assert(t.len() > 1 ==> false);
                            assert(false);
                        }
                    }
                }
            }
        }
        r
    }
}

/// Checks the token between `from` and `to` against the signed digit run
/// of an exponent.
fn check_exp(s: &[u8], from: usize, to: usize) -> (r: bool)
    requires
        from <= to <= s@.len(),
    ensures
        r == is_exp_part(s@.subrange(from as int, to as int)),
{
    let ghost t = s@.subrange(from as int, to as int);
    let start: usize = if from < to && (s[from] == 43 || s[from] == 45) {
        from + 1
    } else {
        from
    };
    proof {
        if from < to {
            assert(t[0] == s@[from as int]);
        }
        assert(strip_sign(t) =~= s@.subrange(start as int, to as int));
    }
    to > start && check_digits(s, start, to)
}

/// Checks the token between `from` and `to` against the whole
/// float-literal grammar.
pub fn check_float(s: &[u8], from: usize, to: usize) -> (r: bool)
    requires
        from <= to <= s@.len(),
    ensures
        r == is_float_literal(s@.subrange(from as int, to as int)),
{
    let ghost t0 = s@.subrange(from as int, to as int);
    let start: usize = if from < to && (s[from] == 43 || s[from] == 45) {
        from + 1
    } else {
        from
    };
    let ghost t = s@.subrange(start as int, to as int);
    proof {
        if from < to {
            assert(t0[0] == s@[from as int]);
        }
        assert(strip_sign(t0) =~= t);
    }
    if check_inf_nan(s, start, to) {
        return true;
    }
    // find the first exponent marker
    let mut j: usize = start;
    while j < to && s[j] != 101 && s[j] != 69
        invariant
            start <= j <= to <= s@.len(),
            forall|i: int| start <= i < j ==> #[trigger] s@[i] != 101 && s@[i] != 69,
        decreases to - j,
    {
        j = j + 1;
    }
    if j == to {
        let r = check_mantissa(s, start, to);
        proof {
            if !r {
                assert forall|j2: int|
                    !(0 <= j2 < t.len() && (#[trigger] t[j2] == 101 || t[j2] == 69) && is_mantissa(
                        t.take(j2),
                    ) && is_exp_part(t.skip(j2 + 1))) by {
                    if 0 <= j2 < t.len() {
                        assert(t[j2] == s@[start + j2]);
                    }
                }
            }
        }
        r
    } else {
        let ghost ej = j - start;
        proof {
            assert(t[ej] == s@[j as int]);
        }
        let mant_ok = check_mantissa(s, start, j);
        let exp_ok = check_exp(s, j + 1, to);
        let r = mant_ok && exp_ok;
        proof {
            assert(t.take(ej) =~= s@.subrange(start as int, j as int));
            assert(t.skip(ej + 1) =~= s@.subrange(j + 1, to as int));
            if r {
                assert(0 <= ej < t.len() && (t[ej] == 101 || t[ej] == 69) && is_mantissa(
                    t.take(ej),
                ) && is_exp_part(t.skip(ej + 1)));
            } else {
                lemma_mantissa_no_e(t, ej);
                assert forall|j2: int|
                    !(0 <= j2 < t.len() && (#[trigger] t[j2] == 101 || t[j2] == 69) && is_mantissa(
                        t.take(j2),
                    ) && is_exp_part(t.skip(j2 + 1))) by {
                    if 0 <= j2 < t.len() && (t[j2] == 101 || t[j2] == 69) && is_mantissa(
                        t.take(j2),
                    ) && is_exp_part(t.skip(j2 + 1)) {
                        if j2 < ej {
                            assert(t[j2] == s@[start + j2]);
                            assert(false);
                        } else if j2 > ej {
                            assert(t.take(j2)[ej] == t[ej]);
                            lemma_mantissa_no_e(t.take(j2), ej);
                            assert(false);
                        } else {
                            assert(false);
                        }
                    }
                }
            }
        }
        r
    }
}

/// The view of one property set.
pub type PropsView = Seq<(Seq<char>, EntityValueView)>;

/// The segments of `s` split on the delimiter `d`, exactly as a string
/// split: one more segment than there are delimiters.
pub open spec fn split_on(s: Seq<u8>, d: u8) -> Seq<Seq<u8>>
    decreases s.len(),
{
    if s.len() == 0 {
        seq![seq![]]
    } else {
        let pre = split_on(s.drop_last(), d);
        if s.last() == d {
            pre.push(seq![])
        } else {
            pre.update(pre.len() - 1, pre.last().push(s.last()))
        }
    }
}

/// The maximal whitespace-free runs of `s`, in order.
pub open spec fn ws_split(s: Seq<u8>) -> Seq<Seq<u8>>
    decreases s.len(),
{
    if s.len() == 0 {
        seq![]
    } else {
        let pre = ws_split(s.drop_last());
        let c = s.last();
        if is_ws(c) {
            pre
        } else if s.len() >= 2 && !is_ws(s[s.len() - 2]) {
            pre.update(pre.len() - 1, pre.last().push(c))
        } else {
            pre.push(seq![c])
        }
    }
}

/// The property list with `k` bound to `v`: a later duplicate key
/// overwrites the earlier value in place, else the pair is appended.
pub open spec fn insert_prop(props: PropsView, k: Seq<char>, v: EntityValueView) -> PropsView
    decreases props.len(),
{
    if props.len() == 0 {
        seq![(k, v)]
    } else if props[0].0 == k {
        seq![(k, v)] + props.drop_first()
    } else {
        seq![props[0]] + insert_prop(props.drop_first(), k, v)
    }
}

/// The classification of a value token: a float literal is numeric,
/// three whitespace-separated float literals are a 3-vector, anything
/// else is text. `None` only for byte runs that are not valid UTF-8,
/// which are skipped.
pub open spec fn classify_value(vb: Seq<u8>) -> Option<EntityValueView> {
    if !valid_utf8(vb) {
        None
    } else if is_float_literal(vb) {
        Some(EntityValueView::Number(decode_utf8(vb)))
    } else {
        let toks = ws_split(vb);
        if toks.len() == 3 && is_float_literal(toks[0]) && is_float_literal(toks[1])
            && is_float_literal(toks[2]) {
            if valid_utf8(toks[0]) && valid_utf8(toks[1]) && valid_utf8(toks[2]) {
                Some(
                    EntityValueView::Vec3(
                        decode_utf8(toks[0]),
                        decode_utf8(toks[1]),
                        decode_utf8(toks[2]),
                    ),
                )
            } else {
                None
            }
        } else {
            Some(EntityValueView::String(decode_utf8(vb)))
        }
    }
}

/// One property line applied to the open entity list: the second
/// quote-delimited segment is the key, the fourth the value; a line that
/// lacks them contributes nothing.
pub open spec fn process_kv(ents: Seq<PropsView>, line: Seq<u8>) -> Seq<PropsView> {
    let segs = split_on(line, QUOTE);
    if segs.len() < 4 {
        ents
    } else {
        let kb = segs[1];
        let vb = segs[3];
        if !valid_utf8(kb) {
            ents
        } else {
            match classify_value(vb) {
                None => ents,
                Some(v) => ents.update(
                    ents.len() - 1,
                    insert_prop(ents.last(), decode_utf8(kb), v),
                ),
            }
        }
    }
}

/// One line applied to the scanner state: `{` opens a new set, `}`
/// closes the current one, anything else is a property line when a set
/// is open and is discarded otherwise.
pub open spec fn process_line(ents: Seq<PropsView>, inside: bool, line: Seq<u8>) -> (
    Seq<PropsView>,
    bool,
) {
    if line == seq![OPEN_BRACE] {
        (ents.push(seq![]), true)
    } else if line == seq![CLOSE_BRACE] {
        (ents, false)
    } else if inside && ents.len() > 0 {
        (process_kv(ents, line), inside)
    } else {
        (ents, inside)
    }
}

/// The scanner state: the finished property sets, whether a set is open,
/// and the bytes of the line being accumulated.
pub struct EntScan {
    pub ents: Seq<PropsView>,
    pub inside: bool,
    pub cur: Seq<u8>,
}

/// A line accumulated up to a newline, with one carriage return dropped
/// before it.
pub open spec fn strip_cr(l: Seq<u8>) -> Seq<u8> {
    if l.len() > 0 && l.last() == CR {
        l.drop_last()
    } else {
        l
    }
}

/// One byte applied to the scanner state.
pub open spec fn scan_step(st: EntScan, c: u8) -> EntScan {
    if c == NL {
        let r = process_line(st.ents, st.inside, strip_cr(st.cur));
        EntScan { ents: r.0, inside: r.1, cur: seq![] }
    } else {
        EntScan { ents: st.ents, inside: st.inside, cur: st.cur.push(c) }
    }
}

/// The scanner state after all of `s`.
pub open spec fn scan_run(s: Seq<u8>) -> EntScan
    decreases s.len(),
{
    if s.len() == 0 {
        EntScan { ents: seq![], inside: false, cur: seq![] }
    } else {
        scan_step(scan_run(s.drop_last()), s.last())
    }
}

/// The property sets decoded from entity text given as bytes: every
/// newline-terminated line is processed with its line ending stripped,
/// and a final unterminated line is processed as it stands.
pub open spec fn spec_parse_entities(s: Seq<u8>) -> Seq<PropsView> {
    let st = scan_run(s);
    if st.cur.len() > 0 {
        process_line(st.ents, st.inside, st.cur).0
    } else {
        st.ents
    }
}

/// No key appears twice in one property set.
pub open spec fn unique_keys(props: PropsView) -> bool {
    forall|i: int, j: int| 0 <= i < j < props.len() ==> props[i].0 != props[j].0
}

/// Every key of the rebound list is the bound key or one that was
/// already present.
proof fn lemma_insert_prop_keys(props: PropsView, k: Seq<char>, v: EntityValueView, t: int)
    requires
        0 <= t < insert_prop(props, k, v).len(),
    ensures
        insert_prop(props, k, v)[t].0 == k || exists|u: int|
            0 <= u < props.len() && #[trigger] props[u].0 == insert_prop(props, k, v)[t].0,
    decreases props.len(),
{
    if props.len() == 0 {
    } else if props[0].0 == k {
        if t > 0 {
            assert(insert_prop(props, k, v)[t] == props.drop_first()[t - 1]);
            assert(props[t].0 == insert_prop(props, k, v)[t].0);
        }
    } else {
        if t > 0 {
            lemma_insert_prop_keys(props.drop_first(), k, v, t - 1);
            assert(insert_prop(props, k, v)[t] == insert_prop(props.drop_first(), k, v)[t - 1]);
            if insert_prop(props.drop_first(), k, v)[t - 1].0 != k {
                let u = choose|u: int|
                    0 <= u < props.drop_first().len() && #[trigger] props.drop_first()[u].0
                        == insert_prop(props.drop_first(), k, v)[t - 1].0;
                assert(props[u + 1].0 == insert_prop(props, k, v)[t].0);
            }
        } else {
            assert(props[0].0 == insert_prop(props, k, v)[0].0);
        }
    }
}

/// Rebinding one key keeps the keys of a property set distinct.
proof fn lemma_insert_prop_unique(props: PropsView, k: Seq<char>, v: EntityValueView)
    requires
        unique_keys(props),
    ensures
        unique_keys(insert_prop(props, k, v)),
    decreases props.len(),
{
    let out = insert_prop(props, k, v);
    if props.len() == 0 {
    } else if props[0].0 == k {
        assert forall|i: int, j: int| 0 <= i < j < out.len() implies out[i].0 != out[j].0 by {
            assert(out[j] == props.drop_first()[j - 1]);
            assert(out[j].0 == props[j].0);
            if i > 0 {
                assert(out[i].0 == props[i].0);
            }
        }
    } else {
        lemma_insert_prop_unique(props.drop_first(), k, v);
        let rest = insert_prop(props.drop_first(), k, v);
        assert forall|i: int, j: int| 0 <= i < j < out.len() implies out[i].0 != out[j].0 by {
            if i == 0 {
                assert(out[j] == rest[j - 1]);
                lemma_insert_prop_keys(props.drop_first(), k, v, j - 1);
                if rest[j - 1].0 != k {
                    let u = choose|u: int|
                        0 <= u < props.drop_first().len() && #[trigger] props.drop_first()[u].0
                            == rest[j - 1].0;
                    assert(props[u + 1].0 == rest[j - 1].0);
                    assert(props[0].0 != props[u + 1].0);
                }
            } else {
                assert(out[i] == rest[i - 1]);
                assert(out[j] == rest[j - 1]);
            }
        }
    }
}

/// Every decoded property set has distinct keys.
pub open spec fn all_unique(ents: Seq<PropsView>) -> bool {
    forall|i: int| 0 <= i < ents.len() ==> unique_keys(#[trigger] ents[i])
}

/// One line keeps every property set's keys distinct.
proof fn lemma_process_line_unique(ents: Seq<PropsView>, inside: bool, line: Seq<u8>)
    requires
        all_unique(ents),
    ensures
        all_unique(process_line(ents, inside, line).0),
{
    let out = process_line(ents, inside, line).0;
    if line == seq![OPEN_BRACE] {
        assert(unique_keys(seq![]));
        assert forall|i: int| 0 <= i < out.len() implies unique_keys(#[trigger] out[i]) by {
            if i < ents.len() {
                assert(out[i] == ents[i]);
            }
        }
    } else if line == seq![CLOSE_BRACE] {
    } else if inside && ents.len() > 0 {
        let segs = split_on(line, QUOTE);
        if segs.len() >= 4 && valid_utf8(segs[1]) && classify_value(segs[3]) is Some {
            let v = classify_value(segs[3])->0;
            lemma_insert_prop_unique(ents.last(), decode_utf8(segs[1]), v);
            assert forall|i: int| 0 <= i < out.len() implies unique_keys(#[trigger] out[i]) by {
                if i < ents.len() - 1 {
                    assert(out[i] == ents[i]);
                }
            }
        }
    }
}

/// The scanner state never holds a property set with a repeated key.
proof fn lemma_scan_unique(s: Seq<u8>)
    ensures
        all_unique(scan_run(s).ents),
    decreases s.len(),
{
    if s.len() > 0 {
        lemma_scan_unique(s.drop_last());
        let st = scan_run(s.drop_last());
        if s.last() == NL {
            lemma_process_line_unique(st.ents, st.inside, strip_cr(st.cur));
        }
    }
}

/// The law the data model states for decoded entities: within one
/// property set, keys are unique; a later duplicate in the text
/// overwrites the earlier value instead of adding a second binding.
pub proof fn lemma_entity_keys_unique(s: Seq<u8>)
    ensures
        all_unique(spec_parse_entities(s)),
{
    lemma_scan_unique(s);
    let st = scan_run(s);
    if st.cur.len() > 0 {
        lemma_process_line_unique(st.ents, st.inside, st.cur);
    }
}

/// Compares two byte runs.
fn bytes_eq(a: &[u8], b: &[u8]) -> (r: bool)
    ensures
        r == (a@ == b@),
{
    if a.len() != b.len() {
        proof {
            assert(a@ != b@);
        }
        return false;
    }
    let mut k: usize = 0;
    while k < a.len()
        invariant
            0 <= k <= a@.len(),
            a@.len() == b@.len(),
            forall|i: int| 0 <= i < k ==> #[trigger] a@[i] == b@[i],
        decreases a@.len() - k,
    {
        if a[k] != b[k] {
            return false;
        }
        k = k + 1;
    }
    proof {
        assert(a@ =~= b@);
    }
    true
}

/// True when the string is the UTF-8 decoding of the byte run.
fn string_matches_bytes(s: &String, kb: &[u8]) -> (r: bool)
    requires
        valid_utf8(kb@),
    ensures
        r == (s@ == decode_utf8(kb@)),
{
    let r = bytes_eq(s.as_str().as_bytes(), kb);
    proof {
        if encode_utf8(s@) == kb@ {
            assert(decode_utf8(encode_utf8(s@)) == s@);
        }
        if s@ == decode_utf8(kb@) {
            assert(encode_utf8(decode_utf8(kb@)) == kb@);
        }
    }
    r
}

/// Binding `k` when it is already present rewrites that entry in place.
proof fn lemma_insert_prop_found(s: PropsView, k: Seq<char>, v: EntityValueView, i: int)
    requires
        0 <= i < s.len(),
        s[i].0 == k,
        forall|t: int| 0 <= t < i ==> #[trigger] s[t].0 != k,
    ensures
        insert_prop(s, k, v) =~= s.update(i, (k, v)),
    decreases i,
{
    if i == 0 {
    } else {
        lemma_insert_prop_found(s.drop_first(), k, v, i - 1);
        assert(s.drop_first().update(i - 1, (k, v)) =~= s.update(i, (k, v)).drop_first());
    }
}

/// Binding an absent `k` appends the entry.
proof fn lemma_insert_prop_missing(s: PropsView, k: Seq<char>, v: EntityValueView)
    requires
        forall|t: int| 0 <= t < s.len() ==> #[trigger] s[t].0 != k,
    ensures
        insert_prop(s, k, v) =~= s.push((k, v)),
    decreases s.len(),
{
    if s.len() == 0 {
    } else {
        lemma_insert_prop_missing(s.drop_first(), k, v);
        assert(s.drop_first().push((k, v)) =~= s.push((k, v)).drop_first());
    }
}

/// Binds `key` to `val` in one property list, overwriting in place on a
/// duplicate key.
fn insert_prop_exec(props: &mut Vec<(String, EntityValue)>, kb: &[u8], key: String, val: EntityValue)
    requires
        valid_utf8(kb@),
        key@ == decode_utf8(kb@),
    ensures
        final(props).deep_view() == insert_prop(
            old(props).deep_view(),
            decode_utf8(kb@),
            val.deep_view(),
        ),
{
    let ghost k = decode_utf8(kb@);
    let ghost old_dv = props.deep_view();
    let mut i: usize = 0;
    let n: usize = props.len();
    while i < n
        invariant
            0 <= i <= n,
            n == props@.len(),
            valid_utf8(kb@),
            key@ == k,
            k == decode_utf8(kb@),
            old_dv == props.deep_view(),
            old_dv == old(props).deep_view(),
            forall|t: int| 0 <= t < i ==> #[trigger] props.deep_view()[t].0 != k,
        decreases n - i,
    {
        if string_matches_bytes(&props[i].0, kb) {
            proof {
                assert(props.deep_view()[i as int].0 == props@[i as int].0@);
            }
            let ghost old_props = props@;
            props.remove(i);
            props.insert(i, (key, val));
            proof {
                assert(props@ =~= old_props.update(i as int, (key, val)));
                lemma_insert_prop_found(old_dv, k, val.deep_view(), i as int);
                assert forall|t: int| 0 <= t < props@.len() implies props.deep_view()[t]
                    == old_dv.update(i as int, (k, val.deep_view()))[t] by {
                    assert(props.deep_view()[t] == props@[t].deep_view());
                    assert(old_dv[t] == old_props[t].deep_view());
                }
                assert(props.deep_view() =~= old_dv.update(i as int, (k, val.deep_view())));
            }
            return ;
        }
        proof {
            assert(props.deep_view()[i as int].0 == props@[i as int].0@);
        }
        i = i + 1;
    }
    props.push((key, val));
    proof {
        lemma_insert_prop_missing(old_dv, k, val.deep_view());
        assert(props.deep_view() =~= old_dv.push((k, val.deep_view())));
    }
}

/// Applies one property line to the last open entity.
fn do_kv(ents: &mut Vec<Entity>, line: &[u8])
    requires
        old(ents).len() > 0,
    ensures
        final(ents).deep_view() == process_kv(old(ents).deep_view(), line@),
{
    let ghost old_dv = ents.deep_view();
    // split the line on double quotes; the segments are
    // done[0], .., done[n-1], cur
    let mut done: Vec<Vec<u8>> = Vec::new();
    let mut cur: Vec<u8> = Vec::new();
    let mut i: usize = 0;
    proof {
        assert(line@.take(0) =~= Seq::<u8>::empty());
        assert(done.deep_view().push(cur@) =~= split_on(line@.take(0), QUOTE));
    }
    while i < line.len()
        invariant
            0 <= i <= line@.len(),
            split_on(line@.take(i as int), QUOTE) == done.deep_view().push(cur@),
        decreases line@.len() - i,
    {
        let c: u8 = line[i];
        let ghost pre = split_on(line@.take(i as int), QUOTE);
        proof {
            assert(line@.take(i + 1).drop_last() =~= line@.take(i as int));
            assert(line@.take(i + 1).last() == line@[i as int]);
        }
        if c == QUOTE {
            let ghost done_dv = done.deep_view();
            let ghost curv = cur@;
            done.push(cur);
            cur = Vec::new();
            proof {
                assert(done.deep_view() =~~= done_dv.push(curv));
                assert(split_on(line@.take(i + 1), QUOTE) =~~= done.deep_view().push(cur@));
            }
        } else {
            let ghost curv = cur@;
            cur.push(c);
            proof {
                assert(pre.last() == curv);
                assert(pre.update(pre.len() - 1, pre.last().push(c)) =~~= done.deep_view().push(
                    cur@,
                ));
            }
        }
        i = i + 1;
    }
    proof {
        assert(line@.take(line@.len() as int) =~= line@);
    }
    let ghost segs = split_on(line@, QUOTE);
    if done.len() < 3 {
        // fewer than four quote-delimited segments: the line is skipped
        return ;
    }
    let kb: &Vec<u8> = &done[1];
    let vb: &Vec<u8> = if done.len() >= 4 {
        &done[3]
    } else {
        &cur
    };
    proof {
        assert(segs[1] == kb@);
        assert(segs[3] == vb@);
    }
    let key: String = match crate::shared::utf8_to_string(kb.as_slice()) {
        Some(s) => s,
        None => {
            return ;
        },
    };
    let vs: String = match crate::shared::utf8_to_string(vb.as_slice()) {
        Some(s) => s,
        None => {
            return ;
        },
    };
    proof {
        assert(vb@.subrange(0, vb@.len() as int) =~= vb@);
    }
    let val: EntityValue = if check_float(vb.as_slice(), 0, vb.len()) {
        EntityValue::Number(vs)
    } else {
        // try three whitespace-separated float components
        let mut tdone: Vec<Vec<u8>> = Vec::new();
        let mut tcur: Vec<u8> = Vec::new();
        let mut j: usize = 0;
        proof {
            assert(vb@.take(0) =~= Seq::<u8>::empty());
            assert(tdone.deep_view() =~= ws_split(vb@.take(0)));
        }
        while j < vb.len()
            invariant
                0 <= j <= vb@.len(),
                ws_split(vb@.take(j as int)) == (if tcur@.len() > 0 {
                    tdone.deep_view().push(tcur@)
                } else {
                    tdone.deep_view()
                }),
                (tcur@.len() > 0) <==> (j > 0 && !is_ws(vb@[j - 1])),
            decreases vb@.len() - j,
        {
            let c: u8 = vb[j];
            let ghost pre = ws_split(vb@.take(j as int));
            proof {
                assert(vb@.take(j + 1).drop_last() =~= vb@.take(j as int));
                assert(vb@.take(j + 1).last() == vb@[j as int]);
            }
            if c == 32 || c == 9 || c == 10 || c == 11 || c == 12 || c == 13 {
                if tcur.len() > 0 {
                    let ghost tdv = tdone.deep_view();
                    let ghost tcv = tcur@;
                    tdone.push(tcur);
                    tcur = Vec::new();
                    proof {
                        assert(tdone.deep_view() =~~= tdv.push(tcv));
                    }
                }
            } else {
                let ghost tcv = tcur@;
                tcur.push(c);
                proof {
                    if j > 0 && !is_ws(vb@[j - 1]) {
                        assert(pre.last() == tcv);
                        assert(pre.update(pre.len() - 1, pre.last().push(c))
                            =~~= tdone.deep_view().push(tcur@));
                    } else {
                        assert(pre.push(seq![c]) =~~= tdone.deep_view().push(tcur@));
                    }
                }
            }
            j = j + 1;
        }
        proof {
            assert(vb@.take(vb@.len() as int) =~= vb@);
        }
        if tcur.len() > 0 {
            let ghost tdv = tdone.deep_view();
            let ghost tcv = tcur@;
            tdone.push(tcur);
            proof {
                assert(tdone.deep_view() =~~= tdv.push(tcv));
            }
        }
        let ghost toks = ws_split(vb@);
        proof {
            assert(tdone.deep_view() == toks);
        }
        if tdone.len() == 3 {
            let t0: &Vec<u8> = &tdone[0];
            let t1: &Vec<u8> = &tdone[1];
            let t2: &Vec<u8> = &tdone[2];
            proof {
                assert(t0@ == toks[0] && t1@ == toks[1] && t2@ == toks[2]);
                assert(t0@.subrange(0, t0@.len() as int) =~= t0@);
                assert(t1@.subrange(0, t1@.len() as int) =~= t1@);
                assert(t2@.subrange(0, t2@.len() as int) =~= t2@);
            }
            if check_float(t0.as_slice(), 0, t0.len()) && check_float(t1.as_slice(), 0, t1.len())
                && check_float(t2.as_slice(), 0, t2.len()) {
                let s0: String = match crate::shared::utf8_to_string(t0.as_slice()) {
                    Some(s) => s,
                    None => {
                        return ;
                    },
                };
                let s1: String = match crate::shared::utf8_to_string(t1.as_slice()) {
                    Some(s) => s,
                    None => {
                        return ;
                    },
                };
                let s2: String = match crate::shared::utf8_to_string(t2.as_slice()) {
                    Some(s) => s,
                    None => {
                        return ;
                    },
                };
                EntityValue::Vec3(s0, s1, s2)
            } else {
                EntityValue::String(vs)
            }
        } else {
            EntityValue::String(vs)
        }
    };
    let mut last: Entity = match ents.pop() {
        Some(e) => e,
        None => {
            return ;
        },
    };
    let ghost popped = last.deep_view();
    proof {
        assert(popped == old_dv.last());
    }
    insert_prop_exec(&mut last.props, kb.as_slice(), key, val);
    ents.push(last);
    proof {
        assert(ents.deep_view() =~= old_dv.update(
            old_dv.len() - 1,
            insert_prop(old_dv.last(), decode_utf8(kb@), val.deep_view()),
        ));
    }
}

/// Applies one complete line to the scanner: braces open and close a
/// set, everything else is a property line.
fn do_line(ents: &mut Vec<Entity>, inside: bool, line: &[u8]) -> (ninside: bool)
    ensures
        final(ents).deep_view() == process_line(old(ents).deep_view(), inside, line@).0,
        ninside == process_line(old(ents).deep_view(), inside, line@).1,
{
    if line.len() == 1 && line[0] == OPEN_BRACE {
        let ghost old_dv = ents.deep_view();
        let fresh = Entity { props: Vec::new() };
        proof {
            assert(fresh.deep_view() =~= Seq::<(Seq<char>, EntityValueView)>::empty());
        }
        ents.push(fresh);
        proof {
            assert(line@ =~= seq![OPEN_BRACE]);
            assert(ents.deep_view() =~= old_dv.push(seq![]));
        }
        true
    } else if line.len() == 1 && line[0] == CLOSE_BRACE {
        proof {
            assert(line@ =~= seq![CLOSE_BRACE]);
        }
        false
    } else {
        proof {
            if line@ == seq![OPEN_BRACE] {
                assert(line@[0] == seq![OPEN_BRACE][0]);
                assert(false);
            }
            if line@ == seq![CLOSE_BRACE] {
                assert(line@[0] == seq![CLOSE_BRACE][0]);
                assert(false);
            }
        }
        if inside && ents.len() > 0 {
            do_kv(ents, line);
        }
        inside
    }
}

/// Decodes entity text given as raw bytes into its property sets.
pub fn parse_entities_bytes(b: &[u8]) -> (r: Vec<Entity>)
    ensures
        r.deep_view() == spec_parse_entities(b@),
{
    let mut ents: Vec<Entity> = Vec::new();
    let mut inside: bool = false;
    let mut cur: Vec<u8> = Vec::new();
    let mut i: usize = 0;
    proof {
        assert(b@.take(0) =~= Seq::<u8>::empty());
        assert(ents.deep_view() =~= Seq::<PropsView>::empty());
    }
    while i < b.len()
        invariant
            0 <= i <= b@.len(),
            scan_run(b@.take(i as int)) == (EntScan {
                ents: ents.deep_view(),
                inside,
                cur: cur@,
            }),
        decreases b@.len() - i,
    {
        let c: u8 = b[i];
        proof {
            assert(b@.take(i + 1).drop_last() =~= b@.take(i as int));
            assert(b@.take(i + 1).last() == b@[i as int]);
        }
        if c == NL {
            let line_end: usize = if cur.len() > 0 && cur[cur.len() - 1] == CR {
                cur.len() - 1
            } else {
                cur.len()
            };
            proof {
                assert(strip_cr(cur@) =~= cur@.subrange(0, line_end as int));
            }
            let sl: &[u8] = vstd::slice::slice_subrange(cur.as_slice(), 0, line_end);
            inside = do_line(&mut ents, inside, sl);
            cur.clear();
        } else {
            cur.push(c);
        }
        i = i + 1;
    }
    proof {
        assert(b@.take(b@.len() as int) =~= b@);
    }
    if cur.len() > 0 {
        let _ = do_line(&mut ents, inside, cur.as_slice());
    }
    ents
}

/// Decodes entity text into its property sets; the scanner works on the
/// string's UTF-8 bytes, whose structural delimiters are all ASCII.
pub fn parse_entities(data: &str) -> (r: Vec<Entity>)
    ensures
        r.deep_view() == spec_parse_entities(data.spec_bytes()),
{
    let b: &[u8] = data.as_bytes();
    parse_entities_bytes(b)
}

} // verus!
