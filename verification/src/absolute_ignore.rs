//! Parses one line of an ignore file into a structured rule and rewrites the
//! rule into a pattern anchored to the directory that owns the ignore file.

use vstd::prelude::*;

verus! {

/// `s` without its trailing space characters.
pub open spec fn trim_spaces(s: Seq<char>) -> Seq<char>
    decreases s.len(),
{
    if s.len() > 0 && s.last() == ' ' {
        trim_spaces(s.drop_last())
    } else {
        s
    }
}

/// `s` without its trailing spaces, except that one trailing space stays when
/// the remaining text ends in a backslash that escaped it.
pub open spec fn spec_stripped(s: Seq<char>) -> Seq<char> {
    let t = trim_spaces(s);
    if t.len() < s.len() && t.len() > 0 && t.last() == '\\' {
        t.push(' ')
    } else {
        t
    }
}

/// A line is parsed only when it is non-empty, is no comment, and holds at
/// least one character that is not a space.
pub open spec fn spec_eligible(s: Seq<char>) -> bool {
    &&& s.len() > 0
    &&& s[0] != '#'
    &&& exists|i: int| 0 <= i < s.len() && s[i] != ' '
}

/// Whether the line carries the negation marker.
pub open spec fn spec_negated(s: Seq<char>) -> bool {
    s.len() > 0 && s[0] == '!'
}

/// The line with the negation marker removed.
pub open spec fn after_negation(s: Seq<char>) -> Seq<char> {
    if spec_negated(s) {
        s.skip(1)
    } else {
        s
    }
}

/// Whether `s` holds a slash that is not its final character.
pub open spec fn has_inner_slash(s: Seq<char>) -> bool {
    exists|i: int| 0 <= i < s.len() - 1 && s[i] == '/'
}

/// A rule whose pattern holds a non-final slash is anchored to its own
/// directory; a trailing slash alone does not anchor it.
pub open spec fn spec_absolute(s: Seq<char>) -> bool {
    has_inner_slash(after_negation(s))
}

/// The pattern body: the line after the negation marker, with a leading slash
/// dropped when that slash is what anchored the rule.
pub open spec fn spec_body(s: Seq<char>) -> Seq<char> {
    let t = after_negation(s);
    if has_inner_slash(t) && t.len() > 0 && t[0] == '/' {
        t.skip(1)
    } else {
        t
    }
}

/// A pattern body the anchorer accepts: non-empty and not starting with a
/// slash.
pub open spec fn valid_body(body: Seq<char>) -> bool {
    body.len() > 0 && body[0] != '/'
}

/// The anchored pattern: the owning directory's path, a slash, the
/// match-at-any-depth marker for rules that are not absolute, and the body;
/// the whole prefixed with the negation marker when the rule was negated.
pub open spec fn spec_anchored(
    dir: Seq<char>,
    negated: bool,
    absolute: bool,
    body: Seq<char>,
) -> Seq<char> {
    let infix: Seq<char> = if absolute {
        Seq::<char>::empty()
    } else {
        seq!['*', '*', '/']
    };
    let core = dir + seq!['/'] + infix + body;
    if negated {
        seq!['!'] + core
    } else {
        core
    }
}

/// The anchored pattern built from one raw line: the line is stripped, parsed
/// and anchored to `dir`.
pub open spec fn spec_line_pattern(dir: Seq<char>, line: Seq<char>) -> Seq<char> {
    let t = spec_stripped(line);
    spec_anchored(dir, spec_negated(t), spec_absolute(t), spec_body(t))
}

/// An eligible line must parse to a body the anchorer accepts; an ineligible
/// line is skipped and so is always in order.
pub open spec fn spec_line_ok(line: Seq<char>) -> bool {
    spec_eligible(line) ==> valid_body(spec_body(spec_stripped(line)))
}

/// The anchored patterns of the eligible lines, in line order.
pub open spec fn spec_patterns(dir: Seq<char>, lines: Seq<Seq<char>>) -> Seq<Seq<char>>
    decreases lines.len(),
{
    if lines.len() == 0 {
        Seq::<Seq<char>>::empty()
    } else {
        let rest = spec_patterns(dir, lines.drop_last());
        if spec_eligible(lines.last()) {
            rest.push(spec_line_pattern(dir, lines.last()))
        } else {
            rest
        }
    }
}

/// What `trim_spaces` leaves: a prefix of the line whose last character, if
/// any, is no space, with only spaces after it.
pub proof fn lemma_trim_spaces_props(s: Seq<char>)
    ensures
        trim_spaces(s).len() <= s.len(),
        trim_spaces(s) == s.take(trim_spaces(s).len() as int),
        trim_spaces(s).len() > 0 ==> trim_spaces(s).last() != ' ',
        forall|j: int| trim_spaces(s).len() <= j < s.len() ==> s[j] == ' ',
    decreases s.len(),
{
    if s.len() > 0 && s.last() == ' ' {
        lemma_trim_spaces_props(s.drop_last());
        assert(s.drop_last() =~= s.take(s.len() - 1));
        assert(trim_spaces(s) =~= s.take(trim_spaces(s).len() as int));
        assert forall|j: int| trim_spaces(s).len() <= j < s.len() implies s[j] == ' ' by {
            if j < s.len() - 1 {
                assert(s.drop_last()[j] == s[j]);
            }
        }
    } else {
        assert(trim_spaces(s) =~= s.take(trim_spaces(s).len() as int));
    }
}

/// Stripping trailing whitespace is idempotent: stripping an already stripped
/// line changes nothing.
pub proof fn lemma_strip_idempotent(s: Seq<char>)
    ensures
        spec_stripped(spec_stripped(s)) == spec_stripped(s),
{
    lemma_trim_spaces_props(s);
    let t = trim_spaces(s);
    if t.len() < s.len() && t.len() > 0 && t.last() == '\\' {
        let r = t.push(' ');
        assert(r.drop_last() =~= t);
        assert(r.last() == ' ');
        assert(trim_spaces(r) == trim_spaces(t));
        assert(trim_spaces(t) == t);
        assert(spec_stripped(r) =~= r);
    } else {
        assert(trim_spaces(t) == t);
    }
}

/// An eligible line stays non-empty under stripping and keeps its first
/// character.
pub proof fn lemma_stripped_of_eligible(s: Seq<char>)
    requires
        spec_eligible(s),
    ensures
        spec_stripped(s).len() > 0,
        spec_stripped(s)[0] == s[0],
{
    lemma_trim_spaces_props(s);
    let t = trim_spaces(s);
    if t.len() == 0 {
        let i = choose|i: int| 0 <= i < s.len() && s[i] != ' ';
        assert(s[i] == ' ');
    }
    assert(t[0] == s[0]);
}

/// Anchoring a rule with no anchoring slash inserts the match-at-any-depth
/// marker: the result is the owner directory, a slash, the marker, and the
/// body unchanged.
pub proof fn lemma_anchor_relative_rule(d: Seq<char>, b: Seq<char>)
    requires
        b.len() > 0,
        b[0] != '/',
        b[0] != '!',
        !has_inner_slash(b),
    ensures
        spec_anchored(d, spec_negated(b), spec_absolute(b), spec_body(b)) == d + seq!['/'] + seq![
            '*',
            '*',
            '/',
        ] + b,
{
}

/// Anchoring a rule with a leading slash drops that slash and anchors the body
/// directly under the owner directory.
pub proof fn lemma_anchor_absolute_rule(d: Seq<char>, b: Seq<char>)
    requires
        b.len() > 0,
        b[0] != '/',
    ensures
        ({
            let s = seq!['/'] + b;
            spec_anchored(d, spec_negated(s), spec_absolute(s), spec_body(s)) == d + seq!['/'] + b
        }),
{
    let s = seq!['/'] + b;
    assert(s[0] == '/');
    assert(has_inner_slash(s)) by {
        assert(0 < s.len() - 1 && s[0] == '/');
    }
    assert(s.skip(1) =~= b);
    assert(spec_anchored(d, spec_negated(s), spec_absolute(s), spec_body(s)) =~= d + seq!['/'] + b);
}

/// Negation is prefix-preserved: the pattern anchored from a line that starts
/// with the negation marker itself starts with that marker.
pub proof fn lemma_anchor_preserves_negation(d: Seq<char>, p: Seq<char>)
    requires
        p.len() > 0,
    ensures
        ({
            let s = seq!['!'] + p;
            let a = spec_anchored(d, spec_negated(s), spec_absolute(s), spec_body(s));
            a.len() > 0 && a[0] == '!'
        }),
{
    let s = seq!['!'] + p;
    assert(s[0] == '!');
}

/// One parsed ignore-file rule.
#[derive(PartialEq, Eq, Debug)]
pub struct IgnorePattern<'a> {
    pub negated: bool,
    pub absolute: bool,
    pub pattern_body: &'a str,
}

/// Strips trailing space characters; when the last kept character is a
/// backslash that escaped a space, one trailing space is preserved.
pub fn strip_trailing_whitespaces(line: &str) -> (r: &str)
    ensures
        r@ == spec_stripped(line@),
{
    let len = line.unicode_len();
    let mut t: usize = len;
    proof {
        assert(line@.take(len as int) =~= line@);
    }
    while t > 0 && line.get_char(t - 1) == ' '
        invariant
            t <= len,
            len == line@.len(),
            forall|j: int| t <= j < len ==> line@[j] == ' ',
            trim_spaces(line@) == trim_spaces(line@.take(t as int)),
        decreases t,
    {
        proof {
            assert(line@.take(t as int).last() == ' ');
            assert(line@.take(t as int).drop_last() =~= line@.take(t - 1));
        }
        t = t - 1;
    }
    proof {
        if t == len {
            assert(line@.take(t as int) =~= line@);
        }
        if t > 0 {
            assert(line@.take(t as int).last() == line@[t - 1]);
        }
        assert(trim_spaces(line@) == line@.take(t as int));
    }
    if t == len {
        return line;
    }
    if t == 0 {
        let r = "";
        proof {
            reveal_strlit("");
            assert(r@ =~= spec_stripped(line@));
        }
        return r;
    }
    if line.get_char(t - 1) == '\\' {
        let r = line.substring_char(0, t + 1);
        proof {
            assert(r@ =~= spec_stripped(line@));
        }
        r
    } else {
        let r = line.substring_char(0, t);
        proof {
            assert(r@ =~= spec_stripped(line@));
        }
        r
    }
}

/// Whether a raw ignore-file line is eligible for parsing.
pub fn filter_ignore_line(line: &str) -> (r: bool)
    ensures
        r == spec_eligible(line@),
{
    let len = line.unicode_len();
    if len == 0 {
        return false;
    }
    if line.get_char(0) == '#' {
        return false;
    }
    let mut i: usize = 0;
    while i < len
        invariant
            i <= len,
            len == line@.len(),
            len > 0,
            line@[0] != '#',
            forall|j: int| 0 <= j < i ==> line@[j] == ' ',
        decreases len - i,
    {
        if line.get_char(i) != ' ' {
            return true;
        }
        i = i + 1;
    }
    false
}

/// Parses one eligible, stripped ignore-file line into its rule.
pub fn parse_ignore_pattern<'a>(pattern: &'a str) -> (r: IgnorePattern<'a>)
    requires
        pattern@.len() > 0,
        pattern@[0] != '#',
    ensures
        r.negated == spec_negated(pattern@),
        r.absolute == spec_absolute(pattern@),
        r.pattern_body@ == spec_body(pattern@),
{
    let len = pattern.unicode_len();
    let mut negated = false;
    let mut rest: &str = pattern;
    if pattern.get_char(0) == '!' {
        negated = true;
        rest = pattern.substring_char(1, len);
        proof {
            assert(rest@ =~= after_negation(pattern@));
        }
    }
    let n = rest.unicode_len();
    let mut absolute = false;
    let mut i: usize = 0;
    while i + 1 < n
        invariant
            i <= n,
            i == 0 || i < n,
            n == rest@.len(),
            absolute == exists|j: int| 0 <= j < i && j < n - 1 && rest@[j] == '/',
        decreases n - i,
    {
        if rest.get_char(i) == '/' {
            absolute = true;
        }
        i = i + 1;
    }
    assert(absolute == has_inner_slash(rest@));
    let body: &str;
    if absolute {
        proof {
            let j = choose|j: int| 0 <= j < rest@.len() - 1 && rest@[j] == '/';
            assert(rest@.len() >= 2);
        }
        if rest.get_char(0) == '/' {
            body = rest.substring_char(1, n);
            proof {
                assert(body@ =~= spec_body(pattern@));
            }
        } else {
            body = rest;
        }
    } else {
        body = rest;
    }
    IgnorePattern { negated, absolute, pattern_body: body }
}

/// Rewrites one parsed rule into a pattern anchored to the owning directory.
pub fn add_parent_to_ignore_pattern(path: &str, pattern: IgnorePattern<'_>) -> (r: String)
    requires
        valid_body(pattern.pattern_body@),
    ensures
        r@ == spec_anchored(path@, pattern.negated, pattern.absolute, pattern.pattern_body@),
{
    let mut result = String::new();
    if pattern.negated {
        result.append("!");
    }
    result.append(path);
    result.append("/");
    if !pattern.absolute {
        result.append("**/");
    }
    result.append(pattern.pattern_body);
    proof {
        reveal_strlit("!");
        reveal_strlit("/");
        reveal_strlit("**/");
        assert(result@ =~= spec_anchored(
            path@,
            pattern.negated,
            pattern.absolute,
            pattern.pattern_body@,
        ));
    }
    result
}

/// An eligible line whose parsed body is empty or starts with a slash: a
/// defect in the rule set that must abort the run rather than produce a wrong
/// anchored pattern.
#[derive(Debug, Clone, Copy, PartialEq, Eq, Structural)]
pub struct RuleBodyError {
    pub line_index: usize,
}

/// Filters, strips, parses and anchors every line of one ignore file, in line
/// order, anchoring to the directory that owns the file.
pub fn read_patterns_from_lines(lines: &Vec<String>, parent_path: &str) -> (r: Result<
    Vec<String>,
    RuleBodyError,
>)
    ensures
        r is Ok <==> (forall|i: int| 0 <= i < lines@.len() ==> spec_line_ok(#[trigger] lines@[i]@)),
        r matches Ok(v) ==> v.deep_view() == spec_patterns(parent_path@, lines.deep_view()),
        r matches Err(e) ==> {
            &&& e.line_index < lines@.len()
            &&& !spec_line_ok(lines@[e.line_index as int]@)
            &&& forall|i: int| 0 <= i < e.line_index ==> spec_line_ok(#[trigger] lines@[i]@)
        },
{
    let mut patterns: Vec<String> = Vec::new();
    let n = lines.len();
    let mut i: usize = 0;
    proof {
        assert(patterns.deep_view() =~= spec_patterns(parent_path@, lines.deep_view().take(0)));
    }
    while i < n
        invariant
            i <= n,
            n == lines@.len(),
            forall|j: int| 0 <= j < i ==> spec_line_ok(#[trigger] lines@[j]@),
            patterns.deep_view() == spec_patterns(parent_path@, lines.deep_view().take(i as int)),
        decreases n - i,
    {
        let ghost pre = patterns.deep_view();
        let line: &String = &lines[i];
        if filter_ignore_line(line.as_str()) {
            let stripped = strip_trailing_whitespaces(line.as_str());
            proof {
                lemma_stripped_of_eligible(line@);
            }
            let rule = parse_ignore_pattern(stripped);
            if rule.pattern_body.unicode_len() == 0 || rule.pattern_body.get_char(0) == '/' {
                return Err(RuleBodyError { line_index: i });
            }
            let pattern = add_parent_to_ignore_pattern(parent_path, rule);
            patterns.push(pattern);
            proof {
                assert(patterns.deep_view() =~= pre.push(
                    spec_line_pattern(parent_path@, lines@[i as int]@),
                ));
            }
        }
        proof {
            let l = lines.deep_view();
            assert(l.take(i + 1).drop_last() =~= l.take(i as int));
            assert(l.take(i + 1).last() == lines@[i as int]@);
        }
        i = i + 1;
    }
    proof {
        assert(lines.deep_view().take(n as int) =~= lines.deep_view());
    }
    Ok(patterns)
}

} // verus!
