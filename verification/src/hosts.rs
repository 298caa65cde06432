//! Resolution-override management for the static hosts mapping.
//!
//! The mapping file is modelled as a sequence of lines (newline separators
//! stripped, as the surrounding binary reads and writes them).  Every line
//! this tool adds carries a fixed sentinel tag, and removal is defined as
//! "drop every line whose trailing-whitespace-trimmed form ends in the tag",
//! so cleanup never depends on which run created a line.

use vstd::prelude::*;
use vstd::string::StrSliceExecFns;
use vstd::string::StringExecFns;

verus! {

/// The sentinel tag carried by every line this tool appends.
pub open spec fn spec_tag() -> Seq<char> {
    "#mimikry-entry"@
}

/// ASCII whitespace, the characters stripped by the trailing trim.
pub open spec fn is_space(c: char) -> bool {
    c == ' ' || c == '\t' || c == '\r' || c == '\n' || c == '\u{b}' || c == '\u{c}'
}

/// A line with its trailing whitespace removed.
pub open spec fn spec_trim_end(s: Seq<char>) -> Seq<char>
    decreases s.len(),
{
    if s.len() > 0 && is_space(s.last()) {
        spec_trim_end(s.drop_last())
    } else {
        s
    }
}

pub open spec fn seq_ends_with(s: Seq<char>, suffix: Seq<char>) -> bool {
    suffix.len() <= s.len() && s.subrange(s.len() - suffix.len(), s.len() as int) == suffix
}

/// A line owned by this tool: after trimming trailing whitespace it ends in
/// the sentinel tag.
pub open spec fn spec_is_tagged(line: Seq<char>) -> bool {
    seq_ends_with(spec_trim_end(line), spec_tag())
}

/// The override line appended for one domain.
pub open spec fn spec_override_line(domain: Seq<char>) -> Seq<char> {
    "127.0.0.1 "@ + domain + " "@ + spec_tag()
}

/// The override lines appended for a whole domain list, in order.
pub open spec fn spec_override_lines(domains: Seq<Seq<char>>) -> Seq<Seq<char>> {
    domains.map_values(|d: Seq<char>| spec_override_line(d))
}

/// The lines that survive a cleanup: every untagged line, in original order.
pub open spec fn spec_kept_lines(lines: Seq<Seq<char>>) -> Seq<Seq<char>> {
    lines.filter(|l: Seq<char>| !spec_is_tagged(l))
}

/// Whether any line of the file is tagged.
pub open spec fn spec_has_tagged(lines: Seq<Seq<char>>) -> bool {
    exists|i: int| 0 <= i < lines.len() && spec_is_tagged(lines[i])
}

fn is_space_char(c: char) -> (b: bool)
    ensures
        b == is_space(c),
{
    c == ' ' || c == '\t' || c == '\r' || c == '\n' || c == '\u{b}' || c == '\u{c}'
}

/// Length of `line` once trailing whitespace is removed.
fn trimmed_len(line: &str) -> (n: usize)
    ensures
        n <= line@.len(),
        spec_trim_end(line@) == line@.subrange(0, n as int),
{
    let mut n: usize = line.unicode_len();
    proof {
        assert(line@.subrange(0, line@.len() as int) =~= line@);
    }
    while n > 0 && is_space_char(line.get_char(n - 1))
        invariant
            n <= line@.len(),
            spec_trim_end(line@) == spec_trim_end(line@.subrange(0, n as int)),
        decreases n,
    {
        proof {
            let pre = line@.subrange(0, n as int);
            assert(pre.last() == line@[n - 1]);
            assert(pre.drop_last() =~= line@.subrange(0, n - 1));
        }
        n = n - 1;
    }
    proof {
        let pre = line@.subrange(0, n as int);
        if n > 0 {
            assert(pre.last() == line@[n - 1]);
        }
        assert(spec_trim_end(pre) == pre);
        assert(line@.subrange(0, line@.len() as int) =~= line@);
    }
    n
}

/// Whether this tool owns `line`: its trimmed form ends in the sentinel tag.
pub fn is_tagged(line: &str) -> (b: bool)
    ensures
        b == spec_is_tagged(line@),
{
    let tag: &str = "#mimikry-entry";
    proof {
        reveal_strlit("#mimikry-entry");
    }
    let tag_len: usize = tag.unicode_len();
    let n = trimmed_len(line);
    if n < tag_len {
        return false;
    }
    let ghost trimmed = spec_trim_end(line@);
    let start: usize = n - tag_len;
    let mut i: usize = 0;
    while i < tag_len
        invariant
            0 <= i <= tag_len,
            tag_len <= n <= line@.len(),
            start == n - tag_len,
            tag_len == spec_tag().len(),
            tag@ == spec_tag(),
            trimmed == spec_trim_end(line@),
            trimmed == line@.subrange(0, n as int),
            forall|j: int| 0 <= j < i ==> line@[start + j] == spec_tag()[j],
        decreases tag_len - i,
    {
        if line.get_char(start + i) != tag.get_char(i) {
            proof {
                assert(trimmed.len() == n);
                assert(trimmed[start + i] == line@[start + i]);
                assert(trimmed[start + i] != spec_tag()[i as int]);
                assert(!seq_ends_with(trimmed, spec_tag())) by {
                    if seq_ends_with(trimmed, spec_tag()) {
                        let sub = trimmed.subrange(
                            trimmed.len() - spec_tag().len(),
                            trimmed.len() as int,
                        );
                        assert(sub == spec_tag());
                        assert(sub[i as int] == trimmed[start + i]);
                        assert(sub[i as int] == spec_tag()[i as int]);
                        assert(false);
                    }
                }
                assert(!spec_is_tagged(line@));
            }
            return false;
        }
        i = i + 1;
    }
    proof {
        assert(trimmed.subrange(trimmed.len() - spec_tag().len(), trimmed.len() as int)
            =~= spec_tag());
    }
    true
}

/// The mapping line for one domain: loopback address, the domain, the tag.
pub fn override_line(domain: &str) -> (r: String)
    ensures
        r@ == spec_override_line(domain@),
{
    let mut s = String::from_str("127.0.0.1 ");
    s.append(domain);
    s.append(" ");
    s.append("#mimikry-entry");
    proof {
        assert(s@ =~= spec_override_line(domain@));
    }
    s
}

/// Every override line is tagged, so one cleanup removes whatever any number
/// of additions wrote.
pub proof fn lemma_override_line_tagged(domain: Seq<char>)
    ensures
        spec_is_tagged(spec_override_line(domain)),
{
    reveal_strlit("#mimikry-entry");
    let line = spec_override_line(domain);
    assert(line.len() >= spec_tag().len());
    assert(line.last() == spec_tag().last());
    assert(!is_space(line.last()));
    assert(spec_trim_end(line) == line);
    assert(line.subrange(line.len() - spec_tag().len(), line.len() as int) =~= spec_tag());
}

/// The lines to append to the mapping file for `domains`: one tagged
/// override line per domain, in the given order, duplicates preserved.
pub fn update_hosts(domains: &Vec<String>) -> (r: Vec<String>)
    ensures
        r.deep_view() == spec_override_lines(domains.deep_view()),
        r@.len() == domains@.len(),
        forall|i: int| 0 <= i < r@.len() ==> spec_is_tagged(#[trigger] r@[i]@),
{
    let mut out: Vec<String> = Vec::new();
    let n = domains.len();
    let mut i: usize = 0;
    while i < n
        invariant
            n == domains@.len(),
            0 <= i <= n,
            out.deep_view() =~= spec_override_lines(domains.deep_view().subrange(0, i as int)),
            forall|j: int| 0 <= j < out@.len() ==> spec_is_tagged(#[trigger] out@[j]@),
        decreases n - i,
    {
        let line = override_line(domains[i].as_str());
        proof {
            lemma_override_line_tagged(domains@[i as int]@);
        }
        out.push(line);
        proof {
            let dv = domains.deep_view();
            let sub0 = dv.subrange(0, i as int);
            let sub1 = dv.subrange(0, i + 1);
            assert(sub1 =~= sub0.push(dv[i as int]));
            assert(spec_override_lines(sub1)
                =~= spec_override_lines(sub0).push(spec_override_line(dv[i as int])));
            assert(out.deep_view() =~= spec_override_lines(sub1));
        }
        i = i + 1;
    }
    proof {
        assert(domains.deep_view().subrange(0, n as int) =~= domains.deep_view());
    }
    out
}

proof fn lemma_filter_push<A>(s: Seq<A>, x: A, pred: spec_fn(A) -> bool)
    ensures
        s.push(x).filter(pred) == if pred(x) {
            s.filter(pred).push(x)
        } else {
            s.filter(pred)
        },
{
    reveal(Seq::filter);
    assert(s.push(x).drop_last() =~= s);
    assert(s.push(x).last() == x);
}

/// Partition the mapping file's lines: `None` when no line is tagged (the
/// file must then be left untouched), otherwise the untagged lines alone,
/// byte-identical and in their original order.
pub fn cleanup_hosts(lines: &Vec<String>) -> (r: Option<Vec<String>>)
    ensures
        match r {
            Some(kept) => {
                &&& kept.deep_view() == spec_kept_lines(lines.deep_view())
                &&& spec_has_tagged(lines.deep_view())
            },
            None => !spec_has_tagged(lines.deep_view()),
        },
{
    let mut kept: Vec<String> = Vec::new();
    let mut changed = false;
    let n = lines.len();
    let mut i: usize = 0;
    while i < n
        invariant
            n == lines@.len(),
            0 <= i <= n,
            kept.deep_view() =~= spec_kept_lines(lines.deep_view().subrange(0, i as int)),
            changed == spec_has_tagged(lines.deep_view().subrange(0, i as int)),
        decreases n - i,
    {
        let ghost prefix = lines.deep_view().subrange(0, i as int);
        let ghost l = lines.deep_view()[i as int];
        let tagged = is_tagged(lines[i].as_str());
        if tagged {
            changed = true;
        } else {
            kept.push(lines[i].clone());
        }
        proof {
            assert(lines.deep_view().subrange(0, i + 1) =~= prefix.push(l));
            lemma_filter_push(prefix, l, |q: Seq<char>| !spec_is_tagged(q));
            assert(kept.deep_view()
                =~= spec_kept_lines(lines.deep_view().subrange(0, i + 1)));
            if spec_has_tagged(prefix.push(l)) && !spec_has_tagged(prefix) {
                assert(spec_is_tagged(l) || spec_has_tagged(prefix)) by {
                    let w = choose|w: int|
                        0 <= w < prefix.push(l).len() && spec_is_tagged(prefix.push(l)[w]);
                    if w < prefix.len() {
                        assert(prefix[w] == prefix.push(l)[w]);
                    }
                }
            }
            if spec_is_tagged(l) {
                assert(prefix.push(l)[i as int] == l);
            }
        }
        i = i + 1;
    }
    proof {
        assert(lines.deep_view().subrange(0, n as int) =~= lines.deep_view());
    }
    if changed {
        Some(kept)
    } else {
        None
    }
}

proof fn lemma_filter_all_true<A>(s: Seq<A>, pred: spec_fn(A) -> bool)
    requires
        forall|i: int| 0 <= i < s.len() ==> pred(#[trigger] s[i]),
    ensures
        s.filter(pred) == s,
    decreases s.len(),
{
    reveal(Seq::filter);
    if s.len() > 0 {
        lemma_filter_all_true(s.drop_last(), pred);
        assert(s.drop_last().filter(pred).push(s.last()) =~= s);
    }
}

proof fn lemma_filter_all_false<A>(s: Seq<A>, pred: spec_fn(A) -> bool)
    requires
        forall|i: int| 0 <= i < s.len() ==> !pred(#[trigger] s[i]),
    ensures
        s.filter(pred) == Seq::<A>::empty(),
    decreases s.len(),
{
    reveal(Seq::filter);
    if s.len() > 0 {
        lemma_filter_all_false(s.drop_last(), pred);
    }
}

/// Adding override lines for any domain list and then cleaning up leaves
/// exactly the untagged lines of the original file, in their original order.
pub proof fn lemma_add_then_cleanup(lines: Seq<Seq<char>>, domains: Seq<Seq<char>>)
    ensures
        spec_kept_lines(lines + spec_override_lines(domains)) == spec_kept_lines(lines),
{
    let pred = |l: Seq<char>| !spec_is_tagged(l);
    let added = spec_override_lines(domains);
    assert forall|i: int| 0 <= i < added.len() implies !pred(#[trigger] added[i]) by {
        lemma_override_line_tagged(domains[i]);
    }
    Seq::filter_distributes_over_add(lines, added, pred);
    lemma_filter_all_false(added, pred);
    assert(lines.filter(pred) + Seq::<Seq<char>>::empty() =~= lines.filter(pred));
}

/// Two additions of the same domain list put two tagged lines per domain in
/// the file (no deduplication), and a single cleanup still removes them all.
pub proof fn lemma_double_add_single_cleanup(lines: Seq<Seq<char>>, domains: Seq<Seq<char>>)
    ensures
        spec_kept_lines(lines + spec_override_lines(domains) + spec_override_lines(domains))
            == spec_kept_lines(lines),
        (lines + spec_override_lines(domains) + spec_override_lines(domains)).filter(
            |l: Seq<char>| spec_is_tagged(l),
        ).len() == lines.filter(|l: Seq<char>| spec_is_tagged(l)).len() + 2 * domains.len(),
{
    let tagged = |l: Seq<char>| spec_is_tagged(l);
    let added = spec_override_lines(domains);
    assert forall|i: int| 0 <= i < added.len() implies tagged(#[trigger] added[i]) by {
        lemma_override_line_tagged(domains[i]);
    }
    lemma_add_then_cleanup(lines + added, domains);
    lemma_add_then_cleanup(lines, domains);
    Seq::filter_distributes_over_add(lines + added, added, tagged);
    Seq::filter_distributes_over_add(lines, added, tagged);
    lemma_filter_all_true(added, tagged);
}

/// Adding override lines for at least one domain guarantees that the next
/// cleanup finds a tagged line and rewrites the file.
pub proof fn lemma_add_forces_rewrite(lines: Seq<Seq<char>>, domains: Seq<Seq<char>>)
    requires
        domains.len() > 0,
    ensures
        spec_has_tagged(lines + spec_override_lines(domains)),
{
    lemma_override_line_tagged(domains[0]);
    let all = lines + spec_override_lines(domains);
    assert(spec_override_lines(domains)[0] == spec_override_line(domains[0]));
    assert(all[lines.len() as int] == spec_override_lines(domains)[0]);
}

/// After a cleanup no surviving line is tagged: the kept lines are exactly
/// the untagged ones.
pub proof fn lemma_kept_lines_untagged(lines: Seq<Seq<char>>)
    ensures
        forall|i: int| 0 <= i < spec_kept_lines(lines).len()
            ==> !spec_is_tagged(#[trigger] spec_kept_lines(lines)[i]),
{
    let pred = |l: Seq<char>| !spec_is_tagged(l);
    assert forall|i: int| 0 <= i < spec_kept_lines(lines).len()
        implies !spec_is_tagged(#[trigger] spec_kept_lines(lines)[i]) by {
        Seq::lemma_filter_pred(lines, pred, i);
    }
}

} // verus!
