//! Text matching: substring containment, decimal rendering of the
//! student id, and the regular-expression patterns used by the
//! identity checks.

use vstd::prelude::*;
use vstd::string::StrSliceExecFns;
use vstd::string::StringExecFns;

verus! {

/// Whether `needle` occurs at position `i` of `hay`.
pub open spec fn occurs_at(hay: Seq<char>, needle: Seq<char>, i: int) -> bool {
    0 <= i && i + needle.len() <= hay.len() && hay.subrange(i, i + needle.len()) == needle
}

/// `needle` occurs contiguously somewhere inside `hay`.
pub open spec fn spec_contains(hay: Seq<char>, needle: Seq<char>) -> bool {
    exists|i: int| #[trigger] occurs_at(hay, needle, i)
}

/// Whether `pat` occurs at position `i` of `text`.
#[verifier::loop_isolation(false)]
fn occurs_at_exec(text: &str, pat: &str, i: usize) -> (r: bool)
    requires
        i + pat@.len() <= text@.len(),
    ensures
        r == occurs_at(text@, pat@, i as int),
{
    let text_len = text.unicode_len();
    let pat_len = pat.unicode_len();
    proof {
        assert(i + pat_len <= text_len);
    }
    let mut j: usize = 0;
    while j < pat_len
        invariant
            0 <= j <= pat_len,
            forall|m: int| 0 <= m < j ==> text@[i + m] == pat@[m],
        decreases pat_len - j,
    {
        if text.get_char(i + j) != pat.get_char(j) {
            proof {
                let sub = text@.subrange(i as int, i + pat@.len());
                assert(sub[j as int] != pat@[j as int]);
            }
            return false;
        }
        j = j + 1;
    }
    proof {
        assert(text@.subrange(i as int, i + pat@.len()) =~= pat@);
    }
    true
}

/// Whether `needle` occurs contiguously inside `hay`.
#[verifier::loop_isolation(false)]
pub fn contains_substr(hay: &str, needle: &str) -> (r: bool)
    ensures
        r == spec_contains(hay@, needle@),
{
    let hay_len = hay.unicode_len();
    let needle_len = needle.unicode_len();
    if needle_len > hay_len {
        proof {
            assert(!spec_contains(hay@, needle@));
        }
        return false;
    }
    if needle_len == 0 {
        proof {
            assert(hay@.subrange(0, 0) =~= needle@);
            assert(occurs_at(hay@, needle@, 0));
        }
        return true;
    }
    let mut i: usize = 0;
    while i <= hay_len - needle_len
        invariant
            0 <= i <= hay_len - needle_len + 1,
            forall|k: int| 0 <= k < i ==> !occurs_at(hay@, needle@, k),
        decreases hay_len - needle_len - i + 1,
    {
        if occurs_at_exec(hay, needle, i) {
            return true;
        }
        i = i + 1;
    }
    proof {
        assert(forall|k: int| #[trigger]
            occurs_at(hay@, needle@, k) ==> 0 <= k <= hay@.len() - needle@.len());
        assert(!spec_contains(hay@, needle@));
    }
    false
}

/// The decimal digit character of `d`.
pub open spec fn spec_digit_char(d: int) -> char
    recommends
        0 <= d < 10,
{
    if d == 0 {
        '0'
    } else if d == 1 {
        '1'
    } else if d == 2 {
        '2'
    } else if d == 3 {
        '3'
    } else if d == 4 {
        '4'
    } else if d == 5 {
        '5'
    } else if d == 6 {
        '6'
    } else if d == 7 {
        '7'
    } else if d == 8 {
        '8'
    } else {
        '9'
    }
}

/// The decimal digits of `n`, most significant first, with no sign
/// and no leading zero (a single `'0'` for zero).
pub open spec fn spec_dec_digits(n: int) -> Seq<char>
    recommends
        n >= 0,
    decreases n,
{
    if n < 10 {
        seq![spec_digit_char(n)]
    } else {
        spec_dec_digits(n / 10).push(spec_digit_char(n % 10))
    }
}

/// The single-character string of the decimal digit `d`.
fn digit_str(d: u32) -> (r: &'static str)
    requires
        d < 10,
    ensures
        r@ =~= seq![spec_digit_char(d as int)],
{
    if d == 0 {
        proof {
            reveal_strlit("0");
        }
        "0"
    } else if d == 1 {
        proof {
            reveal_strlit("1");
        }
        "1"
    } else if d == 2 {
        proof {
            reveal_strlit("2");
        }
        "2"
    } else if d == 3 {
        proof {
            reveal_strlit("3");
        }
        "3"
    } else if d == 4 {
        proof {
            reveal_strlit("4");
        }
        "4"
    } else if d == 5 {
        proof {
            reveal_strlit("5");
        }
        "5"
    } else if d == 6 {
        proof {
            reveal_strlit("6");
        }
        "6"
    } else if d == 7 {
        proof {
            reveal_strlit("7");
        }
        "7"
    } else if d == 8 {
        proof {
            reveal_strlit("8");
        }
        "8"
    } else {
        proof {
            reveal_strlit("9");
        }
        "9"
    }
}

/// Renders `n` in decimal, most significant digit first.
pub fn u32_to_dec_string(n: u32) -> (r: String)
    ensures
        r@ == spec_dec_digits(n as int),
    decreases n,
{
    if n < 10 {
        let r = String::from_str(digit_str(n));
        proof {
            assert(r@ =~= spec_dec_digits(n as int));
        }
        r
    } else {
        let mut r = u32_to_dec_string(n / 10);
        r.append(digit_str(n % 10));
        proof {
            assert(r@ =~= spec_dec_digits(n as int));
        }
        r
    }
}

/// A character the regular-expression language treats literally:
/// ASCII alphanumerics and the delimiters used by the patterns built
/// here.
pub open spec fn spec_literal_char(c: char) -> bool {
    ('0' <= c && c <= '9') || ('a' <= c && c <= 'z') || ('A' <= c && c <= 'Z') || c == '<' || c
        == '>' || c == '/'
}

/// A pattern of purely literal characters: it matches exactly its own
/// text.
pub open spec fn spec_literal_pattern(p: Seq<char>) -> bool {
    forall|i: int| 0 <= i < p.len() ==> spec_literal_char(#[trigger] p[i])
}

/// Relies on `regex::Regex::new` and `regex::Regex::is_match`: a
/// short pattern of purely literal characters compiles — far below
/// the compiler's default size limit — and matches exactly where its
/// text occurs as a substring.
#[verifier::external_body]
pub(crate) fn regex_is_match(pattern: &str, text: &str) -> (r: bool)
    requires
        spec_literal_pattern(pattern@),
        pattern@.len() <= 4096,
    ensures
        r == spec_contains(text@, pattern@),
{
    match regex::Regex::new(pattern) {
        Ok(re) => re.is_match(text),
        Err(_) => false,
    }
}

/// Ten to the `k`.
pub open spec fn pow10(k: nat) -> int
    decreases k,
{
    if k == 0 {
        1
    } else {
        10 * pow10((k - 1) as nat)
    }
}

/// A number below ten to the `k` has at most `k` decimal digits.
pub proof fn lemma_dec_digits_len_le(n: int, k: nat)
    requires
        0 <= n,
        1 <= k,
        n < pow10(k),
    ensures
        spec_dec_digits(n).len() <= k,
    decreases n,
{
    if n < 10 {
    } else {
        assert(k >= 2) by {
            if k == 1 {
                assert(pow10(1) == 10);
            }
        }
        assert(n / 10 < pow10((k - 1) as nat)) by {
            assert(pow10(k) == 10 * pow10((k - 1) as nat));
        }
        lemma_dec_digits_len_le(n / 10, (k - 1) as nat);
    }
}

/// Every decimal digit of a non-negative number is a literal
/// character.
pub proof fn lemma_dec_digits_literal(n: int)
    requires
        n >= 0,
    ensures
        forall|i: int|
            0 <= i < spec_dec_digits(n).len() ==> spec_literal_char(
                #[trigger] spec_dec_digits(n)[i],
            ),
    decreases n,
{
    if n < 10 {
    } else {
        lemma_dec_digits_literal(n / 10);
        let prev = spec_dec_digits(n / 10);
        let whole = spec_dec_digits(n);
        assert forall|i: int| 0 <= i < whole.len() implies spec_literal_char(whole[i]) by {
            if i < prev.len() {
                assert(whole[i] == prev[i]);
            } else {
                assert(whole[i] == spec_digit_char(n % 10));
            }
        }
    }
}

/// The marker element the root response must contain: the student id
/// inside an `h1` element, with no surrounding whitespace.
pub open spec fn spec_h1_pattern(student_id: int) -> Seq<char> {
    "<h1>"@ + spec_dec_digits(student_id) + "</h1>"@
}

/// Builds the marker-element pattern for `student_id`.
pub fn h1_pattern(student_id: u32) -> (r: String)
    ensures
        r@ == spec_h1_pattern(student_id as int),
        spec_literal_pattern(r@),
        r@.len() <= 19,
{
    let mut r = String::from_str("<h1>");
    let digits = u32_to_dec_string(student_id);
    r.append(digits.as_str());
    r.append("</h1>");
    proof {
        reveal_strlit("<h1>");
        reveal_strlit("</h1>");
        lemma_dec_digits_literal(student_id as int);
        reveal_with_fuel(pow10, 11);
        lemma_dec_digits_len_le(student_id as int, 10);
        assert(r@ =~= spec_h1_pattern(student_id as int));
        assert forall|i: int| 0 <= i < r@.len() implies spec_literal_char(r@[i]) by {
            let open_len = "<h1>"@.len() as int;
            let digits_len = spec_dec_digits(student_id as int).len() as int;
            if i < open_len {
                assert(r@[i] == "<h1>"@[i]);
            } else if i < open_len + digits_len {
                assert(r@[i] == spec_dec_digits(student_id as int)[i - open_len]);
            } else {
                assert(r@[i] == "</h1>"@[i - open_len - digits_len]);
            }
        }
    }
    r
}

/// Positions witnessing a single-line comment whose body holds `id`:
/// the opener at `i`, the id at `j` after it, and no line break
/// between the opener and the id.
pub open spec fn line_comment_witness(text: Seq<char>, id: Seq<char>, i: int, j: int) -> bool {
    &&& occurs_at(text, "//"@, i)
    &&& i + 2 <= j
    &&& occurs_at(text, id, j)
    &&& forall|m: int| i + 2 <= m < j ==> text[m] != '\n'
}

/// `text` holds a single-line comment whose body contains `id`
/// anywhere after the opener.
pub open spec fn spec_line_comment_with_id(text: Seq<char>, id: Seq<char>) -> bool {
    exists|i: int, j: int| #[trigger] line_comment_witness(text, id, i, j)
}

/// Positions witnessing a block comment whose body holds `id`: the
/// opener at `i`, its first close at `k`, and the id at `j` lying
/// entirely inside the body.
pub open spec fn block_comment_witness(
    text: Seq<char>,
    id: Seq<char>,
    i: int,
    j: int,
    k: int,
) -> bool {
    &&& occurs_at(text, "/*"@, i)
    &&& occurs_at(text, "*/"@, k)
    &&& forall|m: int| i + 2 <= m < k ==> !occurs_at(text, "*/"@, m)
    &&& i + 2 <= j
    &&& occurs_at(text, id, j)
    &&& j + id.len() <= k
}

/// `text` holds a block comment whose body contains `id` anywhere
/// after the opener.
pub open spec fn spec_block_comment_with_id(text: Seq<char>, id: Seq<char>) -> bool {
    exists|i: int, j: int, k: int| #[trigger] block_comment_witness(text, id, i, j, k)
}

/// `text` holds a single-line or block comment whose body contains
/// `id` anywhere after the comment opener.
pub open spec fn spec_comment_with_id(text: Seq<char>, id: Seq<char>) -> bool {
    spec_line_comment_with_id(text, id) || spec_block_comment_with_id(text, id)
}

/// Whether `text` holds a single-line comment whose body contains
/// `id` after the opener.
#[verifier::loop_isolation(false)]
fn has_line_comment_with_id(text: &str, id: &str) -> (r: bool)
    ensures
        r == spec_line_comment_with_id(text@, id@),
{
    let n = text.unicode_len();
    let id_len = id.unicode_len();
    proof {
        reveal_strlit("//");
    }
    if n < 2 || id_len > n {
        proof {
            assert forall|i: int, j: int| !line_comment_witness(text@, id@, i, j) by {}
        }
        return false;
    }
    let mut i: usize = 0;
    while i <= n - 2
        invariant
            0 <= i <= n - 1,
            forall|ip: int, jp: int| ip < i ==> !line_comment_witness(text@, id@, ip, jp),
        decreases n - i,
    {
        if occurs_at_exec(text, "//", i) {
            let mut j: usize = i + 2;
            let mut blocked = false;
            while !blocked && j <= n - id_len
                invariant
                    i + 2 <= j <= n + 1,
                    !blocked ==> forall|m: int| i + 2 <= m < j ==> text@[m] != '\n',
                    forall|jp: int| i + 2 <= jp < j ==> !occurs_at(text@, id@, jp),
                    blocked ==> forall|jp: int| !line_comment_witness(
                        text@,
                        id@,
                        i as int,
                        jp,
                    ),
                decreases n + 1 - j, (if blocked {
                    0int
                } else {
                    1int
                }),
            {
                if occurs_at_exec(text, id, j) {
                    proof {
                        assert(line_comment_witness(text@, id@, i as int, j as int));
                    }
                    return true;
                }
                proof {
                    if id@.len() == 0 {
                        assert(text@.subrange(j as int, j as int) =~= id@);
                        assert(occurs_at(text@, id@, j as int));
                    }
                }
                if text.get_char(j) == '\n' {
                    blocked = true;
                    proof {
                        assert forall|jp: int| !line_comment_witness(
                            text@,
                            id@,
                            i as int,
                            jp,
                        ) by {
                            if line_comment_witness(text@, id@, i as int, jp) {
                                if jp <= j {
                                    assert(!occurs_at(text@, id@, jp));
                                } else {
                                    assert(text@[j as int] == '\n');
                                }
                            }
                        }
                    }
                } else {
                    j = j + 1;
                }
            }
            proof {
                assert forall|jp: int| !line_comment_witness(text@, id@, i as int, jp) by {
                    if line_comment_witness(text@, id@, i as int, jp) {
                        if !blocked {
                            if jp >= j {
                                assert(jp + id@.len() > n);
                            } else {
                                assert(!occurs_at(text@, id@, jp));
                            }
                        }
                    }
                }
            }
        }
        i = i + 1;
    }
    proof {
        assert forall|ip: int, jp: int| !line_comment_witness(text@, id@, ip, jp) by {
            if line_comment_witness(text@, id@, ip, jp) {
                assert(ip + 2 <= n);
            }
        }
    }
    false
}

/// Whether `text` holds a block comment whose body contains `id`
/// after the opener.
#[verifier::loop_isolation(false)]
fn has_block_comment_with_id(text: &str, id: &str) -> (r: bool)
    ensures
        r == spec_block_comment_with_id(text@, id@),
{
    let n = text.unicode_len();
    let id_len = id.unicode_len();
    proof {
        reveal_strlit("/*");
        reveal_strlit("*/");
    }
    if n < 2 || id_len > n {
        proof {
            assert forall|i: int, j: int, k: int| !block_comment_witness(text@, id@, i, j, k) by {}
        }
        return false;
    }
    let mut i: usize = 0;
    while i <= n - 2
        invariant
            0 <= i <= n - 1,
            forall|ip: int, jp: int, kp: int|
                ip < i ==> !block_comment_witness(text@, id@, ip, jp, kp),
        decreases n - i,
    {
        if occurs_at_exec(text, "/*", i) {
            let mut m: usize = i + 2;
            let mut close_at: usize = 0;
            let mut found_close = false;
            while !found_close && m <= n - 2
                invariant
                    i + 2 <= m <= n,
                    !found_close ==> forall|mp: int|
                        i + 2 <= mp < m ==> !occurs_at(text@, "*/"@, mp),
                    found_close ==> (close_at == m && occurs_at(text@, "*/"@, close_at as int)
                        && i + 2 <= close_at && forall|mp: int|
                        i + 2 <= mp < close_at ==> !occurs_at(text@, "*/"@, mp)),
                decreases (if found_close {
                    0int
                } else {
                    1int
                }), n - m,
            {
                if occurs_at_exec(text, "*/", m) {
                    close_at = m;
                    found_close = true;
                } else {
                    m = m + 1;
                }
            }
            if found_close {
                let k = close_at;
                if id_len <= k {
                    let mut j: usize = i + 2;
                    while j <= k - id_len
                        invariant
                            i + 2 <= j <= k + 1,
                            forall|jp: int| i + 2 <= jp < j ==> !occurs_at(text@, id@, jp),
                        decreases k + 1 - j,
                    {
                        if occurs_at_exec(text, id, j) {
                            proof {
                                assert(block_comment_witness(
                                    text@,
                                    id@,
                                    i as int,
                                    j as int,
                                    k as int,
                                ));
                            }
                            return true;
                        }
                        j = j + 1;
                    }
                    proof {
                        assert forall|jp: int, kp: int| !block_comment_witness(
                            text@,
                            id@,
                            i as int,
                            jp,
                            kp,
                        ) by {
                            if block_comment_witness(text@, id@, i as int, jp, kp) {
                                if kp < k {
                                    assert(!occurs_at(text@, "*/"@, kp));
                                } else if kp > k {
                                    assert(!occurs_at(text@, "*/"@, k as int));
                                } else {
                                    assert(!occurs_at(text@, id@, jp));
                                }
                            }
                        }
                    }
                } else {
                    proof {
                        assert forall|jp: int, kp: int| !block_comment_witness(
                            text@,
                            id@,
                            i as int,
                            jp,
                            kp,
                        ) by {
                            if block_comment_witness(text@, id@, i as int, jp, kp) {
                                if kp < k {
                                    assert(!occurs_at(text@, "*/"@, kp));
                                } else if kp > k {
                                    assert(!occurs_at(text@, "*/"@, k as int));
                                } else {
                                    assert(jp + id@.len() > kp);
                                }
                            }
                        }
                    }
                }
            } else {
                proof {
                    assert forall|jp: int, kp: int| !block_comment_witness(
                        text@,
                        id@,
                        i as int,
                        jp,
                        kp,
                    ) by {
                        if block_comment_witness(text@, id@, i as int, jp, kp) {
                            assert(i + 2 <= kp <= n - 2);
                            assert(!occurs_at(text@, "*/"@, kp));
                        }
                    }
                }
            }
        }
        i = i + 1;
    }
    proof {
        assert forall|ip: int, jp: int, kp: int| !block_comment_witness(text@, id@, ip, jp, kp) by {
            if block_comment_witness(text@, id@, ip, jp, kp) {
                assert(ip + 2 <= n);
            }
        }
    }
    false
}

/// Whether `text` holds a single-line or block comment whose body
/// contains `id` anywhere after the comment opener.
pub fn has_comment_with_id(text: &str, id: &str) -> (r: bool)
    ensures
        r == spec_comment_with_id(text@, id@),
{
    if has_line_comment_with_id(text, id) {
        true
    } else {
        has_block_comment_with_id(text, id)
    }
}

} // verus!
