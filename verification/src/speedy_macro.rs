//! The text processing behind the `speedydebug` attribute: cutting a function's
//! source into its parts and rebuilding it with a debugging prologue.
use vstd::prelude::*;

use crate::text::{
    chars_of, concat, concat_strings, contains_chars, contains_seq, join, join_strings, occurs_at,
    push_all, push_str, replace_all, replace_chars, split_char, split_chars, string_of,
    string_push, trim, trim_chars, trim_end, trim_start, vecs_view,
};

verus! {

// ---------------------------------------------------------------------------
// drawstring
// ---------------------------------------------------------------------------

/// The view of an optional string slice.
pub open spec fn opt_view(o: Option<&str>) -> Option<Seq<char>> {
    match o {
        Some(s) => Some(s@),
        None => None,
    }
}

/// While scanning from `from`, after taking in piece `i` the text taken in so far
/// is not empty and contains `pat` (never, when there is no pattern).
pub open spec fn hit(list: Seq<Seq<char>>, from: int, i: int, pat: Option<Seq<char>>) -> bool {
    let t = concat(list.subrange(from, i + 1));
    &&& pat is Some
    &&& t.len() > 0
    &&& contains_seq(t, pat->0)
}

/// The first piece at or after `i` at which the text taken in from `from` hits
/// `end`, or the number of pieces when there is none.
pub open spec fn scan_end(list: Seq<Seq<char>>, from: int, i: int, end: Option<Seq<char>>) -> int
    decreases list.len() - i,
{
    if i >= list.len() {
        list.len() as int
    } else if hit(list, from, i, end) {
        i
    } else {
        scan_end(list, from, i + 1, end)
    }
}

/// The first piece at or after `i` at which the text taken in from the start
/// hits `begin`; `None` when the text hits `end` first or never hits `begin`.
pub open spec fn scan_begin(
    list: Seq<Seq<char>>,
    i: int,
    begin: Option<Seq<char>>,
    end: Option<Seq<char>>,
) -> Option<int>
    decreases list.len() - i,
{
    if i >= list.len() {
        None
    } else if hit(list, 0, i, begin) {
        Some(i)
    } else if hit(list, 0, i, end) {
        None
    } else {
        scan_begin(list, i + 1, begin, end)
    }
}

/// What `drawstring` returns: the pieces after the one that completes `begin`
/// (from the first piece when there is no `begin`), up to but not including
/// the one that completes `end`, counting text from the first piece taken.
/// When `end` is completed before `begin`, or `begin` never is, the result is empty.
pub open spec fn drawstring_spec(
    list: Seq<Seq<char>>,
    begin: Option<Seq<char>>,
    end: Option<Seq<char>>,
) -> Seq<char> {
    match begin {
        None => concat(list.subrange(0, scan_end(list, 0, 0, end))),
        Some(_) => match scan_begin(list, 0, begin, end) {
            None => Seq::<char>::empty(),
            Some(p) => concat(list.subrange(p + 1, scan_end(list, p + 1, p + 1, end))),
        },
    }
}

proof fn lemma_scan_end_bounds(list: Seq<Seq<char>>, from: int, i: int, end: Option<Seq<char>>)
    requires
        0 <= i <= list.len(),
    ensures
        i <= scan_end(list, from, i, end) <= list.len(),
    decreases list.len() - i,
{
    if i < list.len() && !hit(list, from, i, end) {
        lemma_scan_end_bounds(list, from, i + 1, end);
    }
}

proof fn lemma_scan_begin_bounds(
    list: Seq<Seq<char>>,
    i: int,
    begin: Option<Seq<char>>,
    end: Option<Seq<char>>,
)
    requires
        0 <= i,
    ensures
        scan_begin(list, i, begin, end) matches Some(p) ==> i <= p < list.len(),
    decreases list.len() - i,
{
    if i < list.len() && !hit(list, 0, i, begin) && !hit(list, 0, i, end) {
        lemma_scan_begin_bounds(list, i + 1, begin, end);
    }
}

proof fn lemma_scan_end_none(list: Seq<Seq<char>>, from: int, i: int)
    requires
        0 <= i <= list.len(),
    ensures
        scan_end(list, from, i, None) == list.len(),
    decreases list.len() - i,
{
    if i < list.len() {
        lemma_scan_end_none(list, from, i + 1);
    }
}

/// With neither a begin nor an end marker, `drawstring` gives all the pieces
/// one after the other.
pub proof fn lemma_drawstring_no_markers(list: Seq<Seq<char>>)
    ensures
        drawstring_spec(list, None, None) == concat(list),
{
    lemma_scan_end_none(list, 0, 0);
    assert(list.subrange(0, list.len() as int) =~= list);
}

/// `drawstring` always gives a run of consecutive pieces.
pub proof fn lemma_drawstring_contiguous(
    list: Seq<Seq<char>>,
    begin: Option<Seq<char>>,
    end: Option<Seq<char>>,
)
    ensures
        exists|a: int, b: int|
            0 <= a <= b <= list.len() && drawstring_spec(list, begin, end) == concat(
                #[trigger] list.subrange(a, b),
            ),
{
    match begin {
        None => {
            lemma_scan_end_bounds(list, 0, 0, end);
            let b = scan_end(list, 0, 0, end);
            assert(drawstring_spec(list, begin, end) == concat(list.subrange(0, b)));
        },
        Some(_) => {
            lemma_scan_begin_bounds(list, 0, begin, end);
            match scan_begin(list, 0, begin, end) {
                None => {
                    assert(list.subrange(0, 0) =~= Seq::<Seq<char>>::empty());
                    assert(drawstring_spec(list, begin, end) == concat(list.subrange(0, 0)));
                },
                Some(p) => {
                    lemma_scan_end_bounds(list, p + 1, p + 1, end);
                    let b = scan_end(list, p + 1, p + 1, end);
                    assert(drawstring_spec(list, begin, end) == concat(list.subrange(p + 1, b)));
                },
            }
        },
    }
}

fn opt_chars(o: Option<&str>) -> (r: Option<Vec<char>>)
    ensures
        match o {
            Some(s) => r is Some && r->0@ == s@,
            None => r is None,
        },
{
    match o {
        Some(s) => Some(chars_of(s)),
        None => None,
    }
}

/// Whether the text taken in is not empty and contains the pattern.
fn text_hits(temp: &Vec<char>, pat: &Option<Vec<char>>) -> (r: bool)
    ensures
        r == (pat is Some && temp@.len() > 0 && contains_seq(temp@, pat->0@)),
{
    match pat {
        Some(p) => temp.len() > 0 && contains_chars(temp.as_slice(), p.as_slice()),
        None => false,
    }
}

/// Scans the pieces of `charlist`, taking in their text one after the other,
/// and returns the pieces between the one that completes `beginchar` and the
/// one that completes `endchar` (see `drawstring_spec`).
pub fn drawstring(charlist: &[String], beginchar: Option<&str>, endchar: Option<&str>) -> (r:
    String)
    ensures
        r@ == drawstring_spec(charlist.deep_view(), opt_view(beginchar), opt_view(endchar)),
{
    let ghost list = charlist.deep_view();
    let ghost b = opt_view(beginchar);
    let ghost e = opt_view(endchar);
    let ghost result = drawstring_spec(list, b, e);
    let begin = opt_chars(beginchar);
    let end = opt_chars(endchar);
    let n = charlist.len();
    let mut sindex: usize = 0;
    let mut temp: Vec<char> = Vec::new();
    let mut handle_scan_context: Vec<String> = Vec::new();
    let mut write_enable = beginchar.is_none();
    let ghost mut start: int = 0;
    proof {
        lemma_scan_end_bounds(list, 0, 0, e);
        assert(list.subrange(0, 0) =~= Seq::<Seq<char>>::empty());
        assert(handle_scan_context.deep_view() =~= list.subrange(0, 0));
    }
    while sindex < n
        invariant
            n == charlist.len(),
            list == charlist.deep_view(),
            b == opt_view(beginchar),
            e == opt_view(endchar),
            result == drawstring_spec(list, b, e),
            begin is Some == b is Some,
            begin is Some ==> begin->0@ == b->0,
            end is Some == e is Some,
            end is Some ==> end->0@ == e->0,
            sindex <= n,
            !write_enable ==> {
                &&& b is Some
                &&& start == 0
                &&& temp@ == concat(list.subrange(0, sindex as int))
                &&& handle_scan_context@.len() == 0
                &&& result == match scan_begin(list, sindex as int, b, e) {
                    None => Seq::<char>::empty(),
                    Some(p) => concat(list.subrange(p + 1, scan_end(list, p + 1, p + 1, e))),
                }
            },
            write_enable ==> {
                &&& 0 <= start <= sindex
                &&& temp@ == concat(list.subrange(start, sindex as int))
                &&& handle_scan_context.deep_view() == list.subrange(start, sindex as int)
                &&& sindex <= scan_end(list, start, sindex as int, e) <= n
                &&& result == concat(list.subrange(start, scan_end(list, start, sindex as int, e)))
            },
        decreases n - sindex,
    {
        let piece = chars_of(charlist[sindex].as_str());
        let ghost old_temp = temp@;
        let mut k: usize = 0;
        while k < piece.len()
            invariant
                k <= piece.len(),
                temp@ == old_temp + piece@.take(k as int),
            decreases piece.len() - k,
        {
            temp.push(piece[k]);
            k = k + 1;
            assert(temp@ =~= old_temp + piece@.take(k as int));
        }
        assert(piece@.take(piece.len() as int) =~= piece@);
        proof {
            let x = list.subrange(start, sindex + 1);
            assert(x.drop_last() =~= list.subrange(start, sindex as int));
            assert(temp@ == concat(x));
        }
        if !write_enable && text_hits(&temp, &begin) {
            assert(hit(list, 0, sindex as int, b));
            temp = Vec::new();
            write_enable = true;
            proof {
                start = sindex + 1;
                lemma_scan_end_bounds(list, start, start, e);
                assert(list.subrange(start, start) =~= Seq::<Seq<char>>::empty());
            }
            assert(handle_scan_context.deep_view() =~= list.subrange(start, start));
            assert(temp@ == concat(list.subrange(start, start)));
            sindex = sindex + 1;
            continue;
        }
        if text_hits(&temp, &end) {
            assert(hit(list, start, sindex as int, e));
            return concat_strings(handle_scan_context.as_slice());
        }
        assert(!hit(list, start, sindex as int, e));
        if write_enable {
            let c = charlist[sindex].clone();
            let ghost before = handle_scan_context.deep_view();
            handle_scan_context.push(c);
            assert(handle_scan_context.deep_view() =~= before.push(list[sindex as int]));
            assert(list.subrange(start, sindex + 1) =~= list.subrange(start, sindex as int).push(
                list[sindex as int],
            ));
            proof {
                lemma_scan_end_bounds(list, start, sindex + 1, e);
                assert(scan_end(list, start, sindex as int, e) == scan_end(
                    list,
                    start,
                    sindex + 1,
                    e,
                ));
            }
        } else {
            assert(!hit(list, 0, sindex as int, b));
        }
        sindex = sindex + 1;
    }
    proof {
        if write_enable {
            assert(scan_end(list, start, sindex as int, e) == n);
        } else {
            assert(handle_scan_context.deep_view() =~= Seq::<Seq<char>>::empty());
            assert(concat(handle_scan_context.deep_view()) == Seq::<char>::empty());
        }
    }
    concat_strings(handle_scan_context.as_slice())
}

// ---------------------------------------------------------------------------
// rs_fn_parser
// ---------------------------------------------------------------------------

/// The name and the parameter list are read from the signature alone, the
/// text between `fn` and the first `{`: two sources with the same signature
/// give the same name and parameters, whatever stands before `fn` (such as
/// `pub(crate)` or an attribute) and whatever the body is.
pub proof fn lemma_signature_decides_name_and_args(s1: Seq<char>, s2: Seq<char>)
    requires
        trim(drawstring_spec(singletons(s1), Some("fn"@), Some("{"@))) == trim(
            drawstring_spec(singletons(s2), Some("fn"@), Some("{"@)),
        ),
    ensures
        rs_fn_parser_spec(s1).0 == rs_fn_parser_spec(s2).0,
        rs_fn_parser_spec(s1).1 == rs_fn_parser_spec(s2).1,
{
}

/// Each character of `s` as a string of its own.
pub open spec fn singletons(s: Seq<char>) -> Seq<Seq<char>> {
    Seq::new(s.len(), |i: int| seq![s[i]])
}

/// `s` without its last character (unchanged when empty).
pub open spec fn ignore_last(s: Seq<char>) -> Seq<char> {
    if s.len() > 0 {
        s.drop_last()
    } else {
        s
    }
}

/// The parts of a function's source that `rs_fn_parser` returns: its name, its
/// parameter list, its body without the braces, its return type written as
/// ` -> T` (empty when it has none), and what stands before `fn`.
pub open spec fn rs_fn_parser_spec(s: Seq<char>) -> (Seq<char>, Seq<char>, Seq<char>, Seq<char>, Seq<char>) {
    let list = singletons(s);
    let intercept = trim(drawstring_spec(list, Some("fn"@), Some("{"@)));
    let fn_name = trim(drawstring_spec(singletons(intercept), None, Some("("@)));
    let args = trim(drawstring_spec(singletons(intercept), Some("("@), Some(")"@)));
    let content = ignore_last(trim(drawstring_spec(list, Some("{"@), None)));
    let res0 = trim(drawstring_spec(list, Some("->"@), Some("{"@)));
    let macro_part = ignore_last(trim(drawstring_spec(list, None, Some("fn"@))));
    let res = if res0.len() > 0 {
        " -> "@ + res0
    } else {
        res0
    };
    (fn_name, args, content, res, macro_part)
}

proof fn lemma_concat_singletons(s: Seq<char>, k: int)
    requires
        0 <= k <= s.len(),
    ensures
        concat(singletons(s).subrange(0, k)) == s.subrange(0, k),
    decreases k,
{
    if k > 0 {
        lemma_concat_singletons(s, k - 1);
        assert(singletons(s).subrange(0, k).drop_last() =~= singletons(s).subrange(0, k - 1));
        assert(s.subrange(0, k - 1) + seq![s[k - 1]] =~= s.subrange(0, k));
    } else {
        assert(singletons(s).subrange(0, 0) =~= Seq::<Seq<char>>::empty());
        assert(s.subrange(0, 0) =~= Seq::<char>::empty());
    }
}

proof fn lemma_scan_begin_never(
    s: Seq<char>,
    i: int,
    begin: Seq<char>,
    end: Option<Seq<char>>,
)
    requires
        0 <= i,
        !contains_seq(s, begin),
    ensures
        scan_begin(singletons(s), i, Some(begin), end) is None,
    decreases s.len() - i,
{
    let list = singletons(s);
    if i < list.len() {
        lemma_concat_singletons(s, i + 1);
        let t = s.subrange(0, i + 1);
        if contains_seq(t, begin) {
            let k = choose|k: int| #[trigger] occurs_at(t, begin, k);
            assert(s.subrange(k, k + begin.len()) =~= t.subrange(k, k + begin.len()));
            assert(occurs_at(s, begin, k));
        }
        assert(!hit(list, 0, i, Some(begin)));
        lemma_scan_begin_never(s, i + 1, begin, end);
    }
}

/// A function whose source has no `->` has an empty return type.
pub proof fn lemma_no_arrow_no_return_type(s: Seq<char>)
    requires
        !contains_seq(s, "->"@),
    ensures
        rs_fn_parser_spec(s).3 == Seq::<char>::empty(),
{
    lemma_scan_begin_never(s, 0, "->"@, Some("{"@));
    assert(trim_end(trim_start(Seq::<char>::empty())) == Seq::<char>::empty());
}

/// Each character of `s` as a string of its own.
fn strtoarray(s: &[char]) -> (r: Vec<String>)
    ensures
        r.deep_view() == singletons(s@),
{
    let mut r: Vec<String> = Vec::new();
    let mut i: usize = 0;
    while i < s.len()
        invariant
            i <= s.len(),
            r.deep_view() == singletons(s@).take(i as int),
        decreases s.len() - i,
    {
        let mut one = String::new();
        string_push(&mut one, s[i]);
        assert(one@ =~= seq![s@[i as int]]);
        let ghost before = r.deep_view();
        r.push(one);
        assert(r.deep_view() =~= before.push(seq![s@[i as int]]));
        i = i + 1;
        assert(r.deep_view() =~= singletons(s@).take(i as int));
    }
    assert(singletons(s@).take(s.len() as int) =~= singletons(s@));
    r
}

/// `s` without its last character.
fn ignore_lastchar(s: &[char]) -> (r: Vec<char>)
    ensures
        r@ == ignore_last(s@),
{
    let mut r: Vec<char> = Vec::new();
    if s.len() == 0 {
        return r;
    }
    let mut i: usize = 0;
    while i + 1 < s.len()
        invariant
            s.len() > 0,
            i < s.len(),
            r@ == s@.take(i as int),
        decreases s.len() - i,
    {
        r.push(s[i]);
        i = i + 1;
        assert(r@ =~= s@.take(i as int));
    }
    assert(r@ =~= s@.drop_last());
    r
}

/// `drawstring` followed by trimming, on characters.
fn draw_trimmed(list: &[String], begin: Option<&str>, end: Option<&str>) -> (r: Vec<char>)
    ensures
        r@ == trim(drawstring_spec(list.deep_view(), opt_view(begin), opt_view(end))),
{
    let d = drawstring(list, begin, end);
    let cs = chars_of(d.as_str());
    trim_chars(cs.as_slice())
}

/// Cuts the source of a function into its name, parameter list, body, return
/// type (as ` -> T`) and what stands before `fn`.
pub fn rs_fn_parser(s: &str) -> (r: (String, String, String, String, String))
    ensures
        (r.0@, r.1@, r.2@, r.3@, r.4@) == rs_fn_parser_spec(s@),
{
    let cs = chars_of(s);
    let list = strtoarray(cs.as_slice());
    let intercept = draw_trimmed(list.as_slice(), Some("fn"), Some("{"));
    let ilist = strtoarray(intercept.as_slice());
    let fn_name = draw_trimmed(ilist.as_slice(), None, Some("("));
    let args = draw_trimmed(ilist.as_slice(), Some("("), Some(")"));
    let content0 = draw_trimmed(list.as_slice(), Some("{"), None);
    let content = ignore_lastchar(content0.as_slice());
    let res0 = draw_trimmed(list.as_slice(), Some("->"), Some("{"));
    let macro0 = draw_trimmed(list.as_slice(), None, Some("fn"));
    let macro_part = ignore_lastchar(macro0.as_slice());
    let res = if res0.len() > 0 {
        let mut t = String::new();
        push_str(&mut t, " -> ");
        push_all(&mut t, res0.as_slice());
        t
    } else {
        string_of(res0.as_slice())
    };
    (
        string_of(fn_name.as_slice()),
        string_of(args.as_slice()),
        string_of(content.as_slice()),
        res,
        string_of(macro_part.as_slice()),
    )
}

// ---------------------------------------------------------------------------
// speedydebug
// ---------------------------------------------------------------------------

/// The statements put in front of the body of a function marked `speedydebug`;
/// `@@@` stands for the tuple of the function's name and its arguments.
pub const DEBUG_TEMPLATE: &'static str = "\
  let needexec = {
    let res = std::env::var(\"rsdebug\");
    match res {
        Ok(val) => {
          if val == \"info\" {
            true
          } else {
            false
          }
        }
        _ => false,
      }
    };
  if needexec {
    let args = @@@;
    let json_content = serde_json::to_string_pretty(&args).unwrap();
    let profile_path = std::env::current_dir()
                        .unwrap()
                        .join(\"rsprofile.json\")
                        .into_os_string()
                        .into_string()
                        .unwrap();
    std::fs::write(profile_path.as_str(), json_content).unwrap();
  }
  ";

/// For each piece of a parameter list between commas, the text before its first
/// colon, when that text is not empty, trimmed and prefixed by `&`.
pub open spec fn arg_refs(kvs: Seq<Seq<char>>) -> Seq<Seq<char>>
    decreases kvs.len(),
{
    if kvs.len() == 0 {
        Seq::<Seq<char>>::empty()
    } else {
        let prev = arg_refs(kvs.drop_last());
        let varname = split_char(kvs.last(), ':')[0];
        if varname.len() > 0 {
            prev.push(seq!['&'] + trim(varname))
        } else {
            prev
        }
    }
}

/// The source that `speedydebug` makes of a function's source: the same function
/// whose body starts with the debugging statements of `DEBUG_TEMPLATE`, in which
/// `@@@` is replaced by `("name",&arg1,&arg2,..)`.
pub open spec fn speedydebug_spec(input: Seq<char>) -> Seq<char> {
    let parts = rs_fn_parser_spec(input);
    let names = arg_refs(split_char(parts.1, ','));
    let tuple = "(\""@ + parts.0 + "\","@ + join(names, ","@) + ")"@;
    let content = replace_all(DEBUG_TEMPLATE@, "@@@"@, tuple) + parts.2;
    parts.4 + " fn "@ + parts.0 + "("@ + parts.1 + ")"@ + parts.3 + "{"@ + content + "}"@
}

/// The references to the arguments named in a parameter list.
fn arg_var_names(args: &[char]) -> (r: Vec<String>)
    ensures
        r.deep_view() == arg_refs(split_char(args@, ',')),
{
    let kvs = split_chars(args, ',');
    let ghost kv_views = vecs_view(kvs@);
    let mut r: Vec<String> = Vec::new();
    let mut i: usize = 0;
    while i < kvs.len()
        invariant
            i <= kvs.len(),
            kv_views == vecs_view(kvs@),
            r.deep_view() == arg_refs(kv_views.take(i as int)),
        decreases kvs.len() - i,
    {
        assert(kv_views.take(i + 1).drop_last() =~= kv_views.take(i as int));
        let parts = split_chars(kvs[i].as_slice(), ':');
        proof {
            crate::text::lemma_split_char_nonempty(kvs@[i as int]@, ':');
        }
        let varname = &parts[0];
        if varname.len() > 0 {
            let trimmed = trim_chars(varname.as_slice());
            let mut one = String::new();
            string_push(&mut one, '&');
            push_all(&mut one, trimmed.as_slice());
            let ghost before = r.deep_view();
            r.push(one);
            assert(r.deep_view() =~= before.push(seq!['&'] + trim(varname@)));
        }
        i = i + 1;
    }
    assert(kv_views.take(kvs.len() as int) =~= kv_views);
    r
}

/// Rebuilds the source of a function so that its body first runs the debugging
/// statements of `DEBUG_TEMPLATE` (see `speedydebug_spec`).
pub fn speedydebug(input: &str) -> (r: String)
    ensures
        r@ == speedydebug_spec(input@),
{
    let parts = rs_fn_parser(input);
    let args_chars = chars_of(parts.1.as_str());
    let names = arg_var_names(args_chars.as_slice());
    let mut tuple = String::new();
    push_str(&mut tuple, "(\"");
    push_str(&mut tuple, parts.0.as_str());
    push_str(&mut tuple, "\",");
    let joined = join_strings(names.as_slice(), ",");
    push_str(&mut tuple, joined.as_str());
    push_str(&mut tuple, ")");
    let template = chars_of(DEBUG_TEMPLATE);
    let pat = chars_of("@@@");
    let tuple_chars = chars_of(tuple.as_str());
    proof {
        reveal_strlit("@@@");
    }
    let replaced = replace_chars(template.as_slice(), pat.as_slice(), tuple_chars.as_slice());
    let mut out = String::new();
    push_str(&mut out, parts.4.as_str());
    push_str(&mut out, " fn ");
    push_str(&mut out, parts.0.as_str());
    push_str(&mut out, "(");
    push_str(&mut out, parts.1.as_str());
    push_str(&mut out, ")");
    push_str(&mut out, parts.3.as_str());
    push_str(&mut out, "{");
    push_all(&mut out, replaced.as_slice());
    push_str(&mut out, parts.2.as_str());
    push_str(&mut out, "}");
    proof {
        assert(out@ =~= speedydebug_spec(input@));
    }
    out
}

} // verus!
