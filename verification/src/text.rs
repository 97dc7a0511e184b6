//! Character-level helpers the option parsers are built from: exact
//! comparison, ASCII case mapping, separator stripping and comma splitting,
//! plus the three Unicode-aware `str` operations of std the parsers call.
use vstd::prelude::*;

verus! {

/// The character `c` with an ASCII lowercase letter mapped to uppercase;
/// every other character, non-ASCII letters included, is left as it is.
pub open spec fn ascii_upper_char(c: char) -> char {
    if 'a' <= c && c <= 'z' {
        ((c as int) - 32) as char
    } else {
        c
    }
}

/// The character `c` with an ASCII uppercase letter mapped to lowercase.
pub open spec fn ascii_lower_char(c: char) -> char {
    if 'A' <= c && c <= 'Z' {
        ((c as int) + 32) as char
    } else {
        c
    }
}

/// `str::to_ascii_uppercase` as a map over characters.
pub open spec fn ascii_upper_seq(s: Seq<char>) -> Seq<char> {
    s.map_values(|c: char| ascii_upper_char(c))
}

/// `str::to_ascii_lowercase` as a map over characters.
pub open spec fn ascii_lower_seq(s: Seq<char>) -> Seq<char> {
    s.map_values(|c: char| ascii_lower_char(c))
}

/// Whether `c` is one of the separators a kind name may carry: a space, an
/// underscore or a hyphen.
pub open spec fn is_separator(c: char) -> bool {
    c == ' ' || c == '_' || c == '-'
}

/// The text with every space, underscore and hyphen removed.
pub open spec fn without_separators(s: Seq<char>) -> Seq<char> {
    s.filter(|c: char| !is_separator(c))
}

/// Stripping separators takes out every space, underscore and hyphen and
/// keeps every other character.
pub proof fn lemma_without_separators_keeps_the_rest(s: Seq<char>)
    ensures
        forall|i: int|
            0 <= i < without_separators(s).len() ==> #[trigger] without_separators(s)[i] != ' '
                && without_separators(s)[i] != '_' && without_separators(s)[i] != '-',
        forall|i: int|
            0 <= i < s.len() && s[i] != ' ' && s[i] != '_' && s[i] != '-' ==> without_separators(
                s,
            ).contains(#[trigger] s[i]),
        without_separators(s).len() <= s.len(),
{
    broadcast use vstd::seq_lib::group_filter_ensures;

    let pred = |c: char| !is_separator(c);
    assert forall|i: int| 0 <= i < without_separators(s).len() implies #[trigger] without_separators(
        s,
    )[i] != ' ' && without_separators(s)[i] != '_' && without_separators(s)[i] != '-' by {
        s.lemma_filter_pred(pred, i);
    }
    assert forall|i: int|
        0 <= i < s.len() && s[i] != ' ' && s[i] != '_' && s[i] != '-' implies without_separators(
        s,
    ).contains(#[trigger] s[i]) by {
        s.lemma_filter_contains(pred, i);
    }
    s.lemma_filter_len(pred);
}

/// The ASCII case maps move each letter of one case to the same letter of
/// the other, in alphabet order, map back again, and leave every other
/// character alone.
pub proof fn lemma_ascii_case_maps()
    ensures
        forall|c: char|
            'A' <= c <= 'Z' ==> 'a' <= #[trigger] ascii_lower_char(c) <= 'z' && ascii_upper_char(
                ascii_lower_char(c),
            ) == c,
        forall|c: char|
            'a' <= c <= 'z' ==> 'A' <= #[trigger] ascii_upper_char(c) <= 'Z' && ascii_lower_char(
                ascii_upper_char(c),
            ) == c,
        forall|c: char, d: char|
            'A' <= c <= 'Z' && 'A' <= d <= 'Z' ==> (#[trigger] ascii_lower_char(c)) as int - (
            #[trigger] ascii_lower_char(d)) as int == c as int - d as int,
        forall|c: char| !('A' <= c <= 'Z') ==> #[trigger] ascii_lower_char(c) == c,
        forall|c: char| !('a' <= c <= 'z') ==> #[trigger] ascii_upper_char(c) == c,
{
}

/// The comma-separated fields of `s`, in order. There is always one field
/// more than there are commas; a field may be empty.
pub open spec fn comma_fields(s: Seq<char>) -> Seq<Seq<char>>
    decreases s.len(),
{
    if s.len() == 0 {
        seq![Seq::<char>::empty()]
    } else {
        let before = comma_fields(s.drop_last());
        if s.last() == ',' {
            before.push(Seq::<char>::empty())
        } else {
            before.update(before.len() - 1, before.last().push(s.last()))
        }
    }
}

/// The fields written back out with a comma between each two.
pub open spec fn joined_with_commas(fields: Seq<Seq<char>>) -> Seq<char>
    decreases fields.len(),
{
    if fields.len() == 0 {
        Seq::<char>::empty()
    } else if fields.len() == 1 {
        fields[0]
    } else {
        joined_with_commas(fields.drop_last()) + seq![','] + fields.last()
    }
}

/// Splitting at the commas loses nothing and keeps no comma: the fields of
/// a text, written back out with commas between them, are the text, and no
/// field holds a comma.
pub proof fn lemma_comma_fields_rejoin(s: Seq<char>)
    ensures
        comma_fields(s).len() >= 1,
        joined_with_commas(comma_fields(s)) == s,
        forall|k: int, j: int|
            0 <= k < comma_fields(s).len() && 0 <= j < comma_fields(s)[k].len() ==> #[trigger] comma_fields(
                s,
            )[k][j] != ',',
    decreases s.len(),
{
    if s.len() == 0 {
        assert(joined_with_commas(comma_fields(s)) =~= s);
    } else {
        let t = s.drop_last();
        let c = s.last();
        lemma_comma_fields_rejoin(t);
        let before = comma_fields(t);
        let fields = comma_fields(s);
        assert(t.push(c) =~= s);
        if c == ',' {
            assert(fields == before.push(Seq::<char>::empty()));
            assert(fields.drop_last() =~= before);
            assert(joined_with_commas(fields) =~= s);
            assert forall|k: int, j: int|
                0 <= k < fields.len() && 0 <= j < fields[k].len() implies #[trigger] fields[k][j]
                != ',' by {
                assert(k < before.len());
            }
        } else {
            let n = before.len();
            let last = before.last().push(c);
            assert(fields == before.update(n - 1, last));
            if n == 1 {
                assert(joined_with_commas(before) == before[0]);
                assert(joined_with_commas(fields) == fields[0]);
                assert(joined_with_commas(fields) =~= s);
            } else {
                assert(fields.drop_last() =~= before.drop_last());
                assert(joined_with_commas(before) == joined_with_commas(before.drop_last()) + seq![
                    ',',
                ] + before.last());
                assert(joined_with_commas(fields) == joined_with_commas(fields.drop_last()) + seq![
                    ',',
                ] + fields.last());
                assert(joined_with_commas(fields) =~= s);
            }
            assert forall|k: int, j: int|
                0 <= k < fields.len() && 0 <= j < fields[k].len() implies #[trigger] fields[k][j]
                != ',' by {
                if k == n - 1 {
                    if j < before.last().len() {
                        assert(fields[k][j] == before[k][j]);
                    }
                } else {
                    assert(fields[k] == before[k]);
                }
            }
        }
    }
}

/// The result of `str::to_lowercase` on a text (the Unicode lowercase
/// mapping, which may change the length of the text).
pub uninterp spec fn unicode_lowercase(s: Seq<char>) -> Seq<char>;

/// The result of `str::to_uppercase` on a text.
pub uninterp spec fn unicode_uppercase(s: Seq<char>) -> Seq<char>;

/// What lowercasing a text gives: the ASCII case map on an ASCII text, the
/// Unicode lowercase mapping of std otherwise.
pub open spec fn lowered(s: Seq<char>) -> Seq<char> {
    if is_ascii_text(s) {
        ascii_lower_seq(s)
    } else {
        unicode_lowercase(s)
    }
}

/// What uppercasing a text gives: the ASCII case map on an ASCII text, the
/// Unicode uppercase mapping of std otherwise.
pub open spec fn uppered(s: Seq<char>) -> Seq<char> {
    if is_ascii_text(s) {
        ascii_upper_seq(s)
    } else {
        unicode_uppercase(s)
    }
}

/// The character code (plus one) at position `i` of `s`, or 0 past its end.
pub open spec fn code_at(s: Seq<char>, i: int) -> int {
    if 0 <= i < s.len() {
        s[i] as int + 1
    } else {
        0
    }
}

/// A number that tells apart texts of at most 32 characters below U+00FF:
/// the codes at each position, in base 256. Equal texts have equal
/// numbers, so two literals with different numbers differ.
pub open spec fn text_code(s: Seq<char>) -> int {
    code_at(s, 0)
        + code_at(s, 1) * 256
        + code_at(s, 2) * 65536
        + code_at(s, 3) * 16777216
        + code_at(s, 4) * 4294967296
        + code_at(s, 5) * 1099511627776
        + code_at(s, 6) * 281474976710656
        + code_at(s, 7) * 72057594037927936
        + code_at(s, 8) * 18446744073709551616
        + code_at(s, 9) * 4722366482869645213696
        + code_at(s, 10) * 1208925819614629174706176
        + code_at(s, 11) * 309485009821345068724781056
        + code_at(s, 12) * 79228162514264337593543950336
        + code_at(s, 13) * 20282409603651670423947251286016
        + code_at(s, 14) * 5192296858534827628530496329220096
        + code_at(s, 15) * 1329227995784915872903807060280344576
        + code_at(s, 16) * 340282366920938463463374607431768211456
        + code_at(s, 17) * 87112285931760246646623899502532662132736
        + code_at(s, 18) * 22300745198530623141535718272648361505980416
        + code_at(s, 19) * 5708990770823839524233143877797980545530986496
        + code_at(s, 20) * 1461501637330902918203684832716283019655932542976
        + code_at(s, 21) * 374144419156711147060143317175368453031918731001856
        + code_at(s, 22) * 95780971304118053647396689196894323976171195136475136
        + code_at(s, 23) * 24519928653854221733733552434404946937899825954937634816
        + code_at(s, 24) * 6277101735386680763835789423207666416102355444464034512896
        + code_at(s, 25) * 1606938044258990275541962092341162602522202993782792835301376
        + code_at(s, 26) * 411376139330301510538742295639337626245683966408394965837152256
        + code_at(s, 27) * 105312291668557186697918027683670432318895095400549111254310977536
        + code_at(s, 28) * 26959946667150639794667015087019630673637144422540572481103610249216
        + code_at(s, 29) * 6901746346790563787434755862277025452451108972170386555162524223799296
        + code_at(s, 30) * 1766847064778384329583297500742918515827483896875618958121606201292619776
        + code_at(s, 31) * 452312848583266388373324160190187140051835877600158453279131187530910662656
}


/// Whether every character of `s` is ASCII.
pub open spec fn is_ascii_text(s: Seq<char>) -> bool {
    forall|i: int| 0 <= i < s.len() ==> (#[trigger] s[i] as int) < 128
}

/// Whether `c` has the Unicode White_Space property: tab through carriage
/// return, space, next line, no-break space, ogham space mark, the spaces
/// U+2000 to U+200A, the line and paragraph separators, narrow no-break
/// space, medium mathematical space and ideographic space.
pub open spec fn is_white_space(c: char) -> bool {
    let n = c as int;
    (9 <= n <= 13) || n == 0x20 || n == 0x85 || n == 0xA0 || n == 0x1680 || (0x2000 <= n
        <= 0x200A) || n == 0x2028 || n == 0x2029 || n == 0x202F || n == 0x205F || n == 0x3000
}

/// `s` without the whitespace it starts with.
pub open spec fn trim_start_ws(s: Seq<char>) -> Seq<char>
    decreases s.len(),
{
    if s.len() > 0 && is_white_space(s[0]) {
        trim_start_ws(s.subrange(1, s.len() as int))
    } else {
        s
    }
}

/// `s` without the whitespace it ends with.
pub open spec fn trim_end_ws(s: Seq<char>) -> Seq<char>
    decreases s.len(),
{
    if s.len() > 0 && is_white_space(s.last()) {
        trim_end_ws(s.drop_last())
    } else {
        s
    }
}

/// The result of `str::trim` on a text: leading and trailing White_Space
/// removed.
pub open spec fn unicode_trim(s: Seq<char>) -> Seq<char> {
    trim_end_ws(trim_start_ws(s))
}

/// Trimming keeps a text ASCII.
pub proof fn lemma_trim_keeps_ascii(s: Seq<char>)
    requires
        is_ascii_text(s),
    ensures
        is_ascii_text(unicode_trim(s)),
{
    lemma_trim_start_keeps_ascii(s);
    lemma_trim_end_keeps_ascii(trim_start_ws(s));
}

proof fn lemma_trim_start_keeps_ascii(s: Seq<char>)
    requires
        is_ascii_text(s),
    ensures
        is_ascii_text(trim_start_ws(s)),
    decreases s.len(),
{
    if s.len() > 0 && is_white_space(s[0]) {
        let t = s.subrange(1, s.len() as int);
        assert forall|i: int| 0 <= i < t.len() implies (#[trigger] t[i] as int) < 128 by {
            assert(t[i] == s[i + 1]);
        }
        lemma_trim_start_keeps_ascii(t);
    }
}

proof fn lemma_trim_end_keeps_ascii(s: Seq<char>)
    requires
        is_ascii_text(s),
    ensures
        is_ascii_text(trim_end_ws(s)),
    decreases s.len(),
{
    if s.len() > 0 && is_white_space(s.last()) {
        let t = s.drop_last();
        assert forall|i: int| 0 <= i < t.len() implies (#[trigger] t[i] as int) < 128 by {
            assert(t[i] == s[i]);
        }
        lemma_trim_end_keeps_ascii(t);
    }
}

/// Calls `str::to_lowercase`. The contract names the result and states
/// that on an ASCII text it is the ASCII case map; the Unicode case tables
/// it follows beyond ASCII are not restated here.
#[verifier::external_body]
pub(crate) fn lowercase(s: &str) -> (r: String)
    ensures
        r@ == unicode_lowercase(s@),
        is_ascii_text(s@) ==> r@ == ascii_lower_seq(s@),
{
    s.to_lowercase()
}

/// Calls `str::to_uppercase`. The contract names the result and states
/// that on an ASCII text it is the ASCII case map.
#[verifier::external_body]
pub(crate) fn uppercase(s: &str) -> (r: String)
    ensures
        r@ == unicode_uppercase(s@),
        is_ascii_text(s@) ==> r@ == ascii_upper_seq(s@),
{
    s.to_uppercase()
}

/// Calls `str::trim`, which removes leading and trailing White_Space.
#[verifier::external_body]
pub(crate) fn trim(s: &str) -> (r: &str)
    ensures
        r@ == unicode_trim(s@),
{
    s.trim()
}

/// Whether two string slices hold the same characters.
pub fn str_eq(a: &str, b: &str) -> (r: bool)
    ensures
        r == (a@ == b@),
{
    let n = a.unicode_len();
    if n != b.unicode_len() {
        return false;
    }
    let mut i: usize = 0;
    while i < n
        invariant
            n == a@.len(),
            n == b@.len(),
            i <= n,
            forall|j: int| 0 <= j < i ==> a@[j] == b@[j],
        decreases n - i,
    {
        if a.get_char(i) != b.get_char(i) {
            return false;
        }
        i = i + 1;
    }
    assert(a@ =~= b@);
    true
}

/// Whether a character buffer holds exactly the characters of `lit`.
pub fn chars_eq(v: &Vec<char>, lit: &str) -> (r: bool)
    ensures
        r == (v@ == lit@),
{
    let n = lit.unicode_len();
    if v.len() != n {
        return false;
    }
    let mut i: usize = 0;
    while i < n
        invariant
            n == lit@.len(),
            n == v@.len(),
            i <= n,
            forall|j: int| 0 <= j < i ==> v@[j] == lit@[j],
        decreases n - i,
    {
        if v[i] != lit.get_char(i) {
            return false;
        }
        i = i + 1;
    }
    assert(v@ =~= lit@);
    true
}

/// `char::to_ascii_uppercase`.
pub fn upper_char(c: char) -> (r: char)
    ensures
        r == ascii_upper_char(c),
{
    if 'a' <= c && c <= 'z' {
        let b: u8 = c as u8;
        (b - 32) as char
    } else {
        c
    }
}

/// `char::to_ascii_lowercase`.
pub fn lower_char(c: char) -> (r: char)
    ensures
        r == ascii_lower_char(c),
{
    if 'A' <= c && c <= 'Z' {
        let b: u8 = c as u8;
        (b + 32) as char
    } else {
        c
    }
}

/// The characters of `s` with ASCII letters uppercased.
pub fn ascii_upper(s: &str) -> (r: Vec<char>)
    ensures
        r@ == ascii_upper_seq(s@),
{
    let n = s.unicode_len();
    let mut out: Vec<char> = Vec::new();
    let mut i: usize = 0;
    while i < n
        invariant
            n == s@.len(),
            i <= n,
            out@ == ascii_upper_seq(s@.take(i as int)),
        decreases n - i,
    {
        let c = s.get_char(i);
        out.push(upper_char(c));
        assert(s@.take(i + 1) == s@.take(i as int).push(c));
        i = i + 1;
        assert(out@ =~= ascii_upper_seq(s@.take(i as int)));
    }
    assert(s@.take(n as int) == s@);
    out
}

/// The characters of `s` with ASCII letters lowercased.
pub fn ascii_lower(s: &str) -> (r: Vec<char>)
    ensures
        r@ == ascii_lower_seq(s@),
{
    let n = s.unicode_len();
    let mut out: Vec<char> = Vec::new();
    let mut i: usize = 0;
    while i < n
        invariant
            n == s@.len(),
            i <= n,
            out@ == ascii_lower_seq(s@.take(i as int)),
        decreases n - i,
    {
        let c = s.get_char(i);
        out.push(lower_char(c));
        assert(s@.take(i + 1) == s@.take(i as int).push(c));
        i = i + 1;
        assert(out@ =~= ascii_lower_seq(s@.take(i as int)));
    }
    assert(s@.take(n as int) == s@);
    out
}

/// The characters of `s` with every space, underscore and hyphen removed.
pub fn strip_separators(s: &str) -> (r: Vec<char>)
    ensures
        r@ == without_separators(s@),
{
    let n = s.unicode_len();
    let mut out: Vec<char> = Vec::new();
    let mut i: usize = 0;
    while i < n
        invariant
            n == s@.len(),
            i <= n,
            out@ == without_separators(s@.take(i as int)),
        decreases n - i,
    {
        let c = s.get_char(i);
        proof {
            let pre = s@.take(i as int);
            assert(s@.take(i + 1) == pre.push(c));
            reveal(Seq::filter);
            assert(pre.push(c).drop_last() == pre);
        }
        if !(c == ' ' || c == '_' || c == '-') {
            out.push(c);
        }
        i = i + 1;
        assert(out@ =~= without_separators(s@.take(i as int)));
    }
    assert(s@.take(n as int) == s@);
    out
}

/// The comma-separated fields of `s`, each a slice of `s`.
pub fn split_commas(s: &str) -> (r: Vec<&str>)
    ensures
        r@.map_values(|p: &str| p@) == comma_fields(s@),
{
    let n = s.unicode_len();
    let mut out: Vec<&str> = Vec::new();
    let mut start: usize = 0;
    let mut i: usize = 0;
    proof {
        assert(s@.take(0) =~= Seq::<char>::empty());
        assert(out@.map_values(|p: &str| p@) =~= Seq::<Seq<char>>::empty());
        assert(s@.subrange(0, 0) =~= Seq::<char>::empty());
        assert(Seq::<Seq<char>>::empty() + seq![Seq::<char>::empty()] =~= seq![Seq::<char>::empty()]);
    }
    while i < n
        invariant
            n == s@.len(),
            start <= i <= n,
            out@.map_values(|p: &str| p@) + seq![s@.subrange(start as int, i as int)]
                == comma_fields(s@.take(i as int)),
        decreases n - i,
    {
        let c = s.get_char(i);
        let ghost done = out@.map_values(|p: &str| p@);
        proof {
            assert(s@.take(i + 1).drop_last() == s@.take(i as int));
            assert(s@.take(i + 1).last() == c);
        }
        if c == ',' {
            let piece = s.substring_char(start, i);
            out.push(piece);
            start = i + 1;
            proof {
                assert(out@.map_values(|p: &str| p@) =~= done.push(piece@));
                assert(s@.subrange(start as int, (i + 1) as int) =~= Seq::<char>::empty());
                assert(comma_fields(s@.take(i + 1)) == comma_fields(s@.take(i as int)).push(
                    Seq::<char>::empty(),
                ));
            }
            i = i + 1;
        } else {
            proof {
                let cur = s@.subrange(start as int, i as int);
                let fields = comma_fields(s@.take(i as int));
                assert(fields =~= done + seq![cur]);
                assert(fields.last() == cur);
                assert(s@.subrange(start as int, (i + 1) as int) =~= cur.push(c));
                assert(comma_fields(s@.take(i + 1)) == fields.update(
                    fields.len() - 1,
                    cur.push(c),
                ));
                assert(done + seq![cur.push(c)] =~= fields.update(fields.len() - 1, cur.push(c)));
            }
            i = i + 1;
        }
    }
    let last = s.substring_char(start, n);
    let ghost done = out@.map_values(|p: &str| p@);
    out.push(last);
    proof {
        assert(out@.map_values(|p: &str| p@) =~= done.push(last@));
        assert(s@.take(n as int) == s@);
    }
    out
}

} // verus!
