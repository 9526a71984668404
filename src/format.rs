use crate::clock::updated_stamp;
use crate::render::{utc_stamp, adblock_doc, domains_of, hosts_doc, render_adblock, render_hosts};
use vstd::prelude::*;

verus! {

/// The syntax of a generated list.
#[derive(Clone, Copy, Debug, PartialEq, Eq, Structural)]
pub enum OutputFormat {
    /// Content-blocker rules, `||<domain>^`.
    Adblock,
    /// Hosts-file entries, `0.0.0.0 <domain>`.
    Hosts,
}

/// The format requested by name, if the name is one of the two known ones.
pub open spec fn format_named(name: Seq<char>) -> Option<OutputFormat> {
    if name == "adblock"@ {
        Some(OutputFormat::Adblock)
    } else if name == "hosts"@ {
        Some(OutputFormat::Hosts)
    } else {
        None
    }
}

/// A format name that is neither `adblock` nor `hosts`.
#[derive(Debug, PartialEq, Eq)]
pub struct UnsupportedFormat {
    pub name: String,
}

impl UnsupportedFormat {
    /// A human-readable description of the failure, naming the format.
    pub fn message(&self) -> (r: String)
        ensures
            r@ == "Unsupported format: "@ + self.name@,
    {
        let mut text = "Unsupported format: ".to_owned();
        text.append(self.name.as_str());
        text
    }
}

/// Selects the output format by its name; any name other than `adblock` and
/// `hosts` is refused.
pub fn parse_format(name: &str) -> (r: Result<OutputFormat, UnsupportedFormat>)
    ensures
        match format_named(name@) {
            Some(f) => r == Ok::<OutputFormat, UnsupportedFormat>(f),
            None => r.is_err() && r.unwrap_err().name@ == name@,
        },
{
    let given = name.to_owned();
    if given == "adblock".to_owned() {
        Ok(OutputFormat::Adblock)
    } else if given == "hosts".to_owned() {
        Ok(OutputFormat::Hosts)
    } else {
        Err(UnsupportedFormat { name: given })
    }
}

/// The list for `domains` in `format`, generated at `stamp`.
pub open spec fn document(format: OutputFormat, domains: Seq<Seq<char>>, stamp: Seq<char>) -> Seq<
    char,
> {
    match format {
        OutputFormat::Adblock => adblock_doc(domains, stamp),
        OutputFormat::Hosts => hosts_doc(domains, stamp),
    }
}

/// Renders the list for `sites` in `format` with `stamp` as its update time.
pub fn render_document(format: OutputFormat, sites: &[String], stamp: &str) -> (r: String)
    ensures
        r@ == document(format, domains_of(sites@), stamp@),
{
    match format {
        OutputFormat::Adblock => render_adblock(sites, stamp),
        OutputFormat::Hosts => render_hosts(sites, stamp),
    }
}

/// Renders the list for `sites` in `format`, stamped with the current time.
pub fn generate_document(format: OutputFormat, sites: &[String]) -> (r: String)
    ensures
        exists|stamp: Seq<char>| utc_stamp(stamp) && r@ == #[trigger] document(format, domains_of(sites@), stamp),
{
    let stamp = updated_stamp();
    let r = render_document(format, sites, stamp.as_str());
    assert(r@ == document(format, domains_of(sites@), stamp@));
    r
}

} // verus!
