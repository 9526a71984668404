use crate::render::{
    adblock_doc, adblock_header, adblock_preamble, adblock_rules, hosts_doc, hosts_header,
    hosts_preamble, hosts_rules, join_lines, single_line,
};
use vstd::prelude::*;

verus! {

/// Joining two runs of lines is joining each and putting them side by side.
pub proof fn lemma_join_lines_append(a: Seq<Seq<char>>, b: Seq<Seq<char>>)
    ensures
        join_lines(a + b) == join_lines(a) + join_lines(b),
    decreases b.len(),
{
    if b.len() == 0 {
        assert(a + b =~= a);
        assert(join_lines(b) =~= Seq::<char>::empty());
    } else {
        lemma_join_lines_append(a, b.drop_last());
        assert((a + b).drop_last() =~= a + b.drop_last());
        assert((a + b).last() == b.last());
        assert(join_lines(a + b) =~= join_lines(a) + join_lines(b));
    }
}

/// Line `i` of a run stands alone between line breaks, after lines `0..i`
/// and before the rest.
pub proof fn lemma_join_lines_at(lines: Seq<Seq<char>>, i: int)
    requires
        0 <= i < lines.len(),
    ensures
        join_lines(lines) == join_lines(lines.take(i)) + lines[i] + "\n"@ + join_lines(
            lines.skip(i + 1),
        ),
{
    let one = seq![lines[i]];
    assert(lines =~= lines.take(i) + one + lines.skip(i + 1));
    lemma_join_lines_append(lines.take(i) + one, lines.skip(i + 1));
    lemma_join_lines_append(lines.take(i), one);
    assert(one.drop_last() =~= Seq::<Seq<char>>::empty());
    assert(join_lines(one.drop_last()) =~= Seq::<char>::empty());
    assert(one.last() == lines[i]);
    assert(join_lines(one) =~= lines[i] + "\n"@);
    assert(join_lines(lines.take(i)) + join_lines(one) + join_lines(lines.skip(i + 1))
        =~= join_lines(lines.take(i)) + lines[i] + "\n"@ + join_lines(lines.skip(i + 1)));
}

/// A content-blocker list is its header followed by exactly one line
/// `||<d>^` per domain `d`, each on a line of its own, in the order of the
/// domains.
pub proof fn lemma_adblock_one_rule_per_domain(domains: Seq<Seq<char>>, stamp: Seq<char>)
    ensures
        adblock_rules(domains).len() == domains.len(),
        adblock_doc(domains, stamp) == adblock_header(stamp) + join_lines(adblock_rules(domains)),
        forall|i: int|
            0 <= i < domains.len() ==> {
                &&& #[trigger] adblock_rules(domains)[i] == "||"@ + domains[i] + "^"@
                &&& join_lines(adblock_rules(domains)) == join_lines(adblock_rules(domains).take(i))
                    + adblock_rules(domains)[i] + "\n"@ + join_lines(
                    adblock_rules(domains).skip(i + 1),
                )
            },
{
    assert forall|i: int| 0 <= i < domains.len() implies {
        &&& #[trigger] adblock_rules(domains)[i] == "||"@ + domains[i] + "^"@
        &&& join_lines(adblock_rules(domains)) == join_lines(adblock_rules(domains).take(i))
            + adblock_rules(domains)[i] + "\n"@ + join_lines(adblock_rules(domains).skip(i + 1))
    } by {
        lemma_join_lines_at(adblock_rules(domains), i);
    }
}

/// A hosts file is its header followed by exactly one line `0.0.0.0 <d>` per
/// domain `d`, each on a line of its own, in the order of the domains.
pub proof fn lemma_hosts_one_rule_per_domain(domains: Seq<Seq<char>>, stamp: Seq<char>)
    ensures
        hosts_rules(domains).len() == domains.len(),
        hosts_doc(domains, stamp) == hosts_header(stamp) + join_lines(hosts_rules(domains)),
        forall|i: int|
            0 <= i < domains.len() ==> {
                &&& #[trigger] hosts_rules(domains)[i] == "0.0.0.0 "@ + domains[i]
                &&& join_lines(hosts_rules(domains)) == join_lines(hosts_rules(domains).take(i))
                    + hosts_rules(domains)[i] + "\n"@ + join_lines(
                    hosts_rules(domains).skip(i + 1),
                )
            },
{
    assert forall|i: int| 0 <= i < domains.len() implies {
        &&& #[trigger] hosts_rules(domains)[i] == "0.0.0.0 "@ + domains[i]
        &&& join_lines(hosts_rules(domains)) == join_lines(hosts_rules(domains).take(i))
            + hosts_rules(domains)[i] + "\n"@ + join_lines(hosts_rules(domains).skip(i + 1))
    } by {
        lemma_join_lines_at(hosts_rules(domains), i);
    }
}

/// Two content-blocker lists of the same domains differ at most in the
/// timestamp: the text before it and the text after it are the same, and
/// equal stamps give equal lists.
pub proof fn lemma_adblock_differs_only_in_stamp(
    domains: Seq<Seq<char>>,
    s1: Seq<char>,
    s2: Seq<char>,
)
    ensures
        adblock_doc(domains, s1).take(adblock_preamble().len() as int) == adblock_doc(
            domains,
            s2,
        ).take(adblock_preamble().len() as int),
        adblock_doc(domains, s1).skip((adblock_preamble().len() + s1.len()) as int) == adblock_doc(
            domains,
            s2,
        ).skip((adblock_preamble().len() + s2.len()) as int),
        s1 == s2 ==> adblock_doc(domains, s1) == adblock_doc(domains, s2),
        single_line(s1) && single_line(s2) ==> breaks(adblock_doc(domains, s1)) == breaks(
            adblock_doc(domains, s2),
        ),
{
    let p = adblock_preamble();
    let tail = "\n"@ + join_lines(adblock_rules(domains));
    if single_line(s1) && single_line(s2) {
        lemma_breaks_header(p, s1);
        lemma_breaks_header(p, s2);
        lemma_breaks_append(p + s1 + "\n"@, join_lines(adblock_rules(domains)));
        lemma_breaks_append(p + s2 + "\n"@, join_lines(adblock_rules(domains)));
    }
    assert(adblock_doc(domains, s1) =~= p + s1 + tail);
    assert(adblock_doc(domains, s2) =~= p + s2 + tail);
    assert((p + s1 + tail).take(p.len() as int) =~= p);
    assert((p + s2 + tail).take(p.len() as int) =~= p);
    assert((p + s1 + tail).skip((p.len() + s1.len()) as int) =~= tail);
    assert((p + s2 + tail).skip((p.len() + s2.len()) as int) =~= tail);
}

/// Two hosts files of the same domains differ at most in the timestamp: the
/// text before it and the text after it are the same, and equal stamps give
/// equal files.
pub proof fn lemma_hosts_differs_only_in_stamp(
    domains: Seq<Seq<char>>,
    s1: Seq<char>,
    s2: Seq<char>,
)
    ensures
        hosts_doc(domains, s1).take(hosts_preamble().len() as int) == hosts_doc(
            domains,
            s2,
        ).take(hosts_preamble().len() as int),
        hosts_doc(domains, s1).skip((hosts_preamble().len() + s1.len()) as int) == hosts_doc(
            domains,
            s2,
        ).skip((hosts_preamble().len() + s2.len()) as int),
        s1 == s2 ==> hosts_doc(domains, s1) == hosts_doc(domains, s2),
        single_line(s1) && single_line(s2) ==> breaks(hosts_doc(domains, s1)) == breaks(
            hosts_doc(domains, s2),
        ),
{
    let p = hosts_preamble();
    let tail = "\n"@ + join_lines(hosts_rules(domains));
    if single_line(s1) && single_line(s2) {
        lemma_breaks_header(p, s1);
        lemma_breaks_header(p, s2);
        lemma_breaks_append(p + s1 + "\n"@, join_lines(hosts_rules(domains)));
        lemma_breaks_append(p + s2 + "\n"@, join_lines(hosts_rules(domains)));
    }
    assert(hosts_doc(domains, s1) =~= p + s1 + tail);
    assert(hosts_doc(domains, s2) =~= p + s2 + tail);
    assert((p + s1 + tail).take(p.len() as int) =~= p);
    assert((p + s2 + tail).take(p.len() as int) =~= p);
    assert((p + s1 + tail).skip((p.len() + s1.len()) as int) =~= tail);
    assert((p + s2 + tail).skip((p.len() + s2.len()) as int) =~= tail);
}

/// With no domains, either list is its header alone: with a one-line stamp,
/// the preamble's lines and the Updated line, and no rule line.
pub proof fn lemma_empty_list_is_header_only(stamp: Seq<char>)
    ensures
        adblock_doc(Seq::empty(), stamp) == adblock_header(stamp),
        hosts_doc(Seq::empty(), stamp) == hosts_header(stamp),
        single_line(stamp) ==> breaks(adblock_doc(Seq::empty(), stamp)) == breaks(
            adblock_preamble(),
        ) + 1,
        single_line(stamp) ==> breaks(hosts_doc(Seq::empty(), stamp)) == breaks(hosts_preamble())
            + 1,
{
    if single_line(stamp) {
        lemma_breaks_header(adblock_preamble(), stamp);
        lemma_breaks_header(hosts_preamble(), stamp);
    }
    assert(adblock_rules(Seq::empty()) =~= Seq::<Seq<char>>::empty());
    assert(hosts_rules(Seq::empty()) =~= Seq::<Seq<char>>::empty());
    assert(adblock_doc(Seq::empty(), stamp) =~= adblock_header(stamp));
    assert(hosts_doc(Seq::empty(), stamp) =~= hosts_header(stamp));
}

/// How many line breaks `text` holds.
pub open spec fn breaks(text: Seq<char>) -> nat
    decreases text.len(),
{
    if text.len() == 0 {
        0
    } else {
        breaks(text.drop_last()) + if text.last() == '\n' {
            1nat
        } else {
            0nat
        }
    }
}

/// The line breaks of two texts side by side add up.
pub proof fn lemma_breaks_append(a: Seq<char>, b: Seq<char>)
    ensures
        breaks(a + b) == breaks(a) + breaks(b),
    decreases b.len(),
{
    if b.len() == 0 {
        assert(a + b =~= a);
    } else {
        lemma_breaks_append(a, b.drop_last());
        assert((a + b).drop_last() =~= a + b.drop_last());
        assert((a + b).last() == b.last());
    }
}

/// A text without line breaks counts none.
pub proof fn lemma_breaks_single_line(text: Seq<char>)
    requires
        single_line(text),
    ensures
        breaks(text) == 0,
    decreases text.len(),
{
    if text.len() > 0 {
        assert(single_line(text.drop_last()));
        lemma_breaks_single_line(text.drop_last());
    }
}

/// A line break alone counts one.
pub proof fn lemma_breaks_newline()
    ensures
        breaks("\n"@) == 1,
{
    reveal_strlit("\n");
    assert("\n"@.len() == 1);
    assert("\n"@.last() == '\n');
    assert("\n"@.drop_last() =~= Seq::<char>::empty());
    assert(breaks(Seq::<char>::empty()) == 0);
}

/// A header ends its one-line stamp with the only break after the preamble.
pub proof fn lemma_breaks_header(preamble: Seq<char>, stamp: Seq<char>)
    requires
        single_line(stamp),
    ensures
        breaks(preamble + stamp + "\n"@) == breaks(preamble) + 1,
{
    lemma_breaks_append(preamble, stamp);
    lemma_breaks_append(preamble + stamp, "\n"@);
    lemma_breaks_single_line(stamp);
    lemma_breaks_newline();
}

/// A run of lines without breaks of their own holds one break per line.
pub proof fn lemma_breaks_join_lines(lines: Seq<Seq<char>>)
    requires
        forall|i: int| 0 <= i < lines.len() ==> single_line(#[trigger] lines[i]),
    ensures
        breaks(join_lines(lines)) == lines.len(),
    decreases lines.len(),
{
    if lines.len() > 0 {
        let rest = lines.drop_last();
        assert forall|i: int| 0 <= i < rest.len() implies single_line(#[trigger] rest[i]) by {
            assert(rest[i] == lines[i]);
        }
        lemma_breaks_join_lines(rest);
        lemma_breaks_single_line(lines.last());
        lemma_breaks_append(join_lines(rest), lines.last());
        lemma_breaks_append(join_lines(rest) + lines.last(), "\n"@);
        lemma_breaks_newline();
    }
}

/// When neither the stamp nor any domain holds a line break, the rules of a
/// content-blocker list take exactly one line per domain: the list holds the
/// preamble's line breaks, one for the Updated line, and one per domain.
pub proof fn lemma_adblock_rule_line_count(domains: Seq<Seq<char>>, stamp: Seq<char>)
    requires
        single_line(stamp),
        forall|i: int| 0 <= i < domains.len() ==> single_line(#[trigger] domains[i]),
    ensures
        breaks(join_lines(adblock_rules(domains))) == domains.len(),
        breaks(adblock_header(stamp)) == breaks(adblock_preamble()) + 1,
        breaks(adblock_doc(domains, stamp)) == breaks(adblock_preamble()) + 1 + domains.len(),
{
    let rules = adblock_rules(domains);
    reveal_strlit("||");
    reveal_strlit("^");
    assert forall|i: int| 0 <= i < rules.len() implies single_line(#[trigger] rules[i]) by {
        assert(single_line(domains[i]));
        let r = rules[i];
        assert(r == "||"@ + domains[i] + "^"@);
        assert forall|k: int| 0 <= k < r.len() implies r[k] != '\n' by {
            if k >= 2 && k < 2 + domains[i].len() {
                assert(r[k] == domains[i][k - 2]);
            }
        }
    }
    lemma_breaks_join_lines(rules);
    lemma_breaks_append(adblock_header(stamp), join_lines(rules));
    lemma_breaks_header(adblock_preamble(), stamp);
}

/// When neither the stamp nor any domain holds a line break, the rules of a
/// hosts file take exactly one line per domain: the file holds the
/// preamble's line breaks, one for the Updated line, and one per domain.
pub proof fn lemma_hosts_rule_line_count(domains: Seq<Seq<char>>, stamp: Seq<char>)
    requires
        single_line(stamp),
        forall|i: int| 0 <= i < domains.len() ==> single_line(#[trigger] domains[i]),
    ensures
        breaks(join_lines(hosts_rules(domains))) == domains.len(),
        breaks(hosts_header(stamp)) == breaks(hosts_preamble()) + 1,
        breaks(hosts_doc(domains, stamp)) == breaks(hosts_preamble()) + 1 + domains.len(),
{
    let rules = hosts_rules(domains);
    reveal_strlit("0.0.0.0 ");
    assert forall|i: int| 0 <= i < rules.len() implies single_line(#[trigger] rules[i]) by {
        assert(single_line(domains[i]));
        let r = rules[i];
        assert(r == "0.0.0.0 "@ + domains[i]);
        assert forall|k: int| 0 <= k < r.len() implies r[k] != '\n' by {
            if k >= 8 {
                assert(r[k] == domains[i][k - 8]);
            }
        }
    }
    lemma_breaks_join_lines(rules);
    lemma_breaks_append(hosts_header(stamp), join_lines(rules));
    lemma_breaks_header(hosts_preamble(), stamp);
}

} // verus!
