use crate::clock::updated_stamp;
use vstd::prelude::*;

verus! {

/// The domains of a list, as character sequences.
pub open spec fn domains_of(sites: Seq<String>) -> Seq<Seq<char>> {
    sites.map_values(|s: String| s@)
}

/// Whether `text` holds no line break.
pub open spec fn single_line(text: Seq<char>) -> bool {
    forall|i: int| 0 <= i < text.len() ==> text[i] != '\n'
}

/// Whether `stamp` has the form of an update time in UTC: one line that ends
/// with ` (GMT+00:00)`.
pub open spec fn utc_stamp(stamp: Seq<char>) -> bool {
    &&& single_line(stamp)
    &&& stamp.len() >= 12
    &&& stamp.skip(stamp.len() - 12) == " (GMT+00:00)"@
}

/// Each line followed by a line break, in order.
pub open spec fn join_lines(lines: Seq<Seq<char>>) -> Seq<char>
    decreases lines.len(),
{
    if lines.len() == 0 {
        Seq::empty()
    } else {
        join_lines(lines.drop_last()) + lines.last() + "\n"@
    }
}

/// The rule that blocks one domain in content-blocker syntax.
pub open spec fn adblock_rule(domain: Seq<char>) -> Seq<char> {
    "||"@ + domain + "^"@
}

/// The rule lines of a content-blocker list, one per domain.
pub open spec fn adblock_rules(domains: Seq<Seq<char>>) -> Seq<Seq<char>> {
    domains.map_values(|d: Seq<char>| adblock_rule(d))
}

/// The fixed header of a content-blocker list, up to the timestamp.
pub open spec fn adblock_preamble() -> Seq<char> {
    "! Title: Evite esses Sites - Procon-SP\n"@ + "! Expires: 1 day\n"@
        + "! Description: Lista gerada a partir do site Evite esses Sites - https://sistemas.procon.sp.gov.br/evitesite/list/evitesites.php - Fundação Procon/SP\n"@
        + "! Homepage: https://github.com/glauberlima/procon-badsites\n"@
        + "! Licence: https://github.com/glauberlima/procon-badsites/blob/main/LICENSE\n"@
        + "! Updated: "@
}

/// The header of a content-blocker list generated at `stamp`.
pub open spec fn adblock_header(stamp: Seq<char>) -> Seq<char> {
    adblock_preamble() + stamp + "\n"@
}

/// The whole content-blocker list for `domains`, generated at `stamp`.
pub open spec fn adblock_doc(domains: Seq<Seq<char>>, stamp: Seq<char>) -> Seq<char> {
    adblock_header(stamp) + join_lines(adblock_rules(domains))
}

/// Renders the content-blocker list for `sites` with `stamp` as its update time.
pub fn render_adblock(sites: &[String], stamp: &str) -> (r: String)
    ensures
        r@ == adblock_doc(domains_of(sites@), stamp@),
{
    let mut content = String::new();
    content.append("! Title: Evite esses Sites - Procon-SP\n");
    content.append("! Expires: 1 day\n");
    content.append(
        "! Description: Lista gerada a partir do site Evite esses Sites - https://sistemas.procon.sp.gov.br/evitesite/list/evitesites.php - Fundação Procon/SP\n",
    );
    content.append("! Homepage: https://github.com/glauberlima/procon-badsites\n");
    content.append("! Licence: https://github.com/glauberlima/procon-badsites/blob/main/LICENSE\n");
    content.append("! Updated: ");
    content.append(stamp);
    content.append("\n");
    let ghost domains = domains_of(sites@);
    let mut i: usize = 0;
    while i < sites.len()
        invariant
            i <= sites@.len(),
            domains == domains_of(sites@),
            content@ == adblock_header(stamp@) + join_lines(adblock_rules(domains.take(i as int))),
        decreases sites@.len() - i,
    {
        let site = &sites[i];
        content.append("||");
        content.append(site.as_str());
        content.append("^");
        content.append("\n");
        proof {
            let rules = adblock_rules(domains.take(i + 1));
            assert(rules.drop_last() =~= adblock_rules(domains.take(i as int)));
            assert(rules.last() == adblock_rule(site@));
        }
        i = i + 1;
    }
    assert(domains.take(i as int) =~= domains);
    content
}

/// The rule that sinks one domain in hosts-file syntax.
pub open spec fn hosts_rule(domain: Seq<char>) -> Seq<char> {
    "0.0.0.0 "@ + domain
}

/// The rule lines of a hosts file, one per domain.
pub open spec fn hosts_rules(domains: Seq<Seq<char>>) -> Seq<Seq<char>> {
    domains.map_values(|d: Seq<char>| hosts_rule(d))
}

/// The fixed header of a hosts file, up to the timestamp.
pub open spec fn hosts_preamble() -> Seq<char> {
    "# Title: Evite esses Sites - Procon-SP\n"@
        + "# Description: Lista gerada a partir do site Evite esses Sites - https://sistemas.procon.sp.gov.br/evitesite/list/evitesites.php - Fundação Procon/SP\n"@
        + "# Homepage: https://github.com/glauberlima/procon-badsites\n"@
        + "# Licence: https://github.com/glauberlima/procon-badsites/blob/main/LICENSE\n"@
        + "# Updated: "@
}

/// The header of a hosts file generated at `stamp`.
pub open spec fn hosts_header(stamp: Seq<char>) -> Seq<char> {
    hosts_preamble() + stamp + "\n"@
}

/// The whole hosts file for `domains`, generated at `stamp`.
pub open spec fn hosts_doc(domains: Seq<Seq<char>>, stamp: Seq<char>) -> Seq<char> {
    hosts_header(stamp) + join_lines(hosts_rules(domains))
}

/// Renders the hosts file for `sites` with `stamp` as its update time.
pub fn render_hosts(sites: &[String], stamp: &str) -> (r: String)
    ensures
        r@ == hosts_doc(domains_of(sites@), stamp@),
{
    let mut content = String::new();
    content.append("# Title: Evite esses Sites - Procon-SP\n");
    content.append(
        "# Description: Lista gerada a partir do site Evite esses Sites - https://sistemas.procon.sp.gov.br/evitesite/list/evitesites.php - Fundação Procon/SP\n",
    );
    content.append("# Homepage: https://github.com/glauberlima/procon-badsites\n");
    content.append("# Licence: https://github.com/glauberlima/procon-badsites/blob/main/LICENSE\n");
    content.append("# Updated: ");
    content.append(stamp);
    content.append("\n");
    let ghost domains = domains_of(sites@);
    let mut i: usize = 0;
    while i < sites.len()
        invariant
            i <= sites@.len(),
            domains == domains_of(sites@),
            content@ == hosts_header(stamp@) + join_lines(hosts_rules(domains.take(i as int))),
        decreases sites@.len() - i,
    {
        let site = &sites[i];
        content.append("0.0.0.0 ");
        content.append(site.as_str());
        content.append("\n");
        proof {
            let rules = hosts_rules(domains.take(i + 1));
            assert(rules.drop_last() =~= hosts_rules(domains.take(i as int)));
            assert(rules.last() == hosts_rule(site@));
        }
        i = i + 1;
    }
    assert(domains.take(i as int) =~= domains);
    content
}

/// Renders the content-blocker list for `sites`, stamped with the current time.
pub fn generate_adblock(sites: &[String]) -> (r: String)
    ensures
        exists|stamp: Seq<char>| utc_stamp(stamp) && r@ == #[trigger] adblock_doc(domains_of(sites@), stamp),
{
    let stamp = updated_stamp();
    let r = render_adblock(sites, stamp.as_str());
    assert(r@ == adblock_doc(domains_of(sites@), stamp@));
    r
}

/// Renders the hosts file for `sites`, stamped with the current time.
pub fn generate_hosts(sites: &[String]) -> (r: String)
    ensures
        exists|stamp: Seq<char>| utc_stamp(stamp) && r@ == #[trigger] hosts_doc(domains_of(sites@), stamp),
{
    let stamp = updated_stamp();
    let r = render_hosts(sites, stamp.as_str());
    assert(r@ == hosts_doc(domains_of(sites@), stamp@));
    r
}

} // verus!
