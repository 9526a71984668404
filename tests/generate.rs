use procon_badsites::format::{parse_format, render_document, generate_document, OutputFormat};
use procon_badsites::records::{
    extract_sites, parse_sites, present_site_list, sites_from_records, FetchError, JsonModel,
};
use procon_badsites::render::{generate_adblock, generate_hosts, render_adblock, render_hosts};

const ADBLOCK_HEADER: &str = "! Title: Evite esses Sites - Procon-SP\n\
! Expires: 1 day\n\
! Description: Lista gerada a partir do site Evite esses Sites - https://sistemas.procon.sp.gov.br/evitesite/list/evitesites.php - Fundação Procon/SP\n\
! Homepage: https://github.com/glauberlima/procon-badsites\n\
! Licence: https://github.com/glauberlima/procon-badsites/blob/main/LICENSE\n";

const HOSTS_HEADER: &str = "# Title: Evite esses Sites - Procon-SP\n\
# Description: Lista gerada a partir do site Evite esses Sites - https://sistemas.procon.sp.gov.br/evitesite/list/evitesites.php - Fundação Procon/SP\n\
# Homepage: https://github.com/glauberlima/procon-badsites\n\
# Licence: https://github.com/glauberlima/procon-badsites/blob/main/LICENSE\n";

const STAMP: &str = "05 March 2024 10:20:30 (GMT+00:00)";

fn strings(items: &[&str]) -> Vec<String> {
    items.iter().map(|s| s.to_string()).collect()
}

#[test]
fn test_mock_sites_structure() {
    let sites = vec![
        "123importados.com".to_string(),
        "123multiofertas.com.br".to_string(),
        "123multiofertas.net".to_string(),
        "Acessivelmodasbras.com.br".to_string(),
        "agachecomercial.net".to_string(),
    ];
    assert!(!sites.is_empty());
    assert!(sites.contains(&"123importados.com".to_string()));
    assert_eq!(sites.len(), 5);
}

#[test]
fn test_generate_adblock() {
    let sites = vec!["example.com".to_string(), "test.org".to_string()];
    let result = generate_adblock(&sites);

    assert!(result.contains("! Title: Evite esses Sites - Procon-SP"));
    assert!(result.contains("||example.com^"));
    assert!(result.contains("||test.org^"));
}

#[test]
fn test_generate_hosts() {
    let sites = vec!["example.com".to_string(), "test.org".to_string()];
    let result = generate_hosts(&sites);

    assert!(result.contains("# Title: Evite esses Sites - Procon-SP"));
    assert!(result.contains("0.0.0.0 example.com"));
    assert!(result.contains("0.0.0.0 test.org"));
}

#[test]
fn adblock_document_is_exact() {
    let sites = strings(&["example.com", "test.org"]);
    let expected = format!(
        "{}! Updated: {}\n||example.com^\n||test.org^\n",
        ADBLOCK_HEADER, STAMP
    );
    assert_eq!(render_adblock(&sites, STAMP), expected);
}

#[test]
fn hosts_document_is_exact() {
    let sites = strings(&["example.com", "test.org"]);
    let expected = format!(
        "{}# Updated: {}\n0.0.0.0 example.com\n0.0.0.0 test.org\n",
        HOSTS_HEADER, STAMP
    );
    assert_eq!(render_hosts(&sites, STAMP), expected);
}

#[test]
fn one_rule_line_per_domain_in_order() {
    let sites = strings(&["b.com", "a.com", "b.com", "Mixed.Case.org"]);
    let adblock = render_adblock(&sites, STAMP);
    let rules: Vec<&str> = adblock.lines().skip(6).collect();
    assert_eq!(rules, vec!["||b.com^", "||a.com^", "||b.com^", "||Mixed.Case.org^"]);
    let hosts = render_hosts(&sites, STAMP);
    let rules: Vec<&str> = hosts.lines().skip(5).collect();
    assert_eq!(
        rules,
        vec!["0.0.0.0 b.com", "0.0.0.0 a.com", "0.0.0.0 b.com", "0.0.0.0 Mixed.Case.org"]
    );
    assert!(adblock.ends_with("^\n"));
    assert!(hosts.ends_with("org\n"));
}

#[test]
fn same_stamp_gives_same_document() {
    let sites = strings(&["x.net", "y.net"]);
    assert_eq!(render_adblock(&sites, STAMP), render_adblock(&sites, STAMP));
    assert_eq!(render_hosts(&sites, STAMP), render_hosts(&sites, STAMP));
    let other = "06 March 2024 11:00:00 (GMT+00:00)";
    let a = render_adblock(&sites, STAMP);
    let b = render_adblock(&sites, other);
    assert_eq!(a.replace(STAMP, ""), b.replace(other, ""));
}

#[test]
fn empty_list_is_header_only() {
    let none: Vec<String> = Vec::new();
    assert_eq!(
        render_adblock(&none, STAMP),
        format!("{}! Updated: {}\n", ADBLOCK_HEADER, STAMP)
    );
    assert_eq!(
        render_hosts(&none, STAMP),
        format!("{}# Updated: {}\n", HOSTS_HEADER, STAMP)
    );
    assert_eq!(generate_adblock(&none).lines().count(), 6);
    assert_eq!(generate_hosts(&none).lines().count(), 5);
}

#[test]
fn generated_lists_carry_a_utc_stamp() {
    let sites = strings(&["example.com"]);
    let adblock = generate_adblock(&sites);
    let updated = adblock.lines().nth(5).unwrap();
    assert!(updated.starts_with("! Updated: "));
    assert!(updated.ends_with(" (GMT+00:00)"));
    let hosts = generate_hosts(&sites);
    let updated = hosts.lines().nth(4).unwrap();
    assert!(updated.starts_with("# Updated: "));
    assert!(updated.ends_with(" (GMT+00:00)"));
    assert!(updated.len() > "# Updated:  (GMT+00:00)".len());
}

#[test]
fn format_names_select_renderers() {
    assert_eq!(parse_format("adblock"), Ok(OutputFormat::Adblock));
    assert_eq!(parse_format("hosts"), Ok(OutputFormat::Hosts));
    let sites = strings(&["example.com"]);
    assert_eq!(
        render_document(OutputFormat::Adblock, &sites, STAMP),
        render_adblock(&sites, STAMP)
    );
    assert_eq!(
        render_document(OutputFormat::Hosts, &sites, STAMP),
        render_hosts(&sites, STAMP)
    );
    assert!(generate_document(OutputFormat::Hosts, &sites).ends_with("0.0.0.0 example.com\n"));
}

#[test]
fn unsupported_format_is_refused() {
    let err = parse_format("xml").unwrap_err();
    assert_eq!(err.name, "xml");
    assert_eq!(err.message(), "Unsupported format: xml");
    assert!(parse_format("Adblock").is_err());
    assert!(parse_format("").is_err());
}

#[test]
fn records_are_read_in_order() {
    let body = r#"{"Result":"OK","Records":[{"strSite":"a.com","id":1},{"id":2},{"strSite":7},{"strSite":"b.org"}]}"#;
    assert_eq!(parse_sites(body), Ok(strings(&["a.com", "b.org"])));
}

#[test]
fn empty_records_give_empty_list() {
    assert_eq!(parse_sites(r#"{"Records":[]}"#), Ok(Vec::new()));
}

#[test]
fn missing_records_is_a_schema_error() {
    assert_eq!(parse_sites(r#"{"Result":"OK"}"#), Err(FetchError::Schema));
    assert_eq!(parse_sites(r#"{"Records":{"strSite":"a.com"}}"#), Err(FetchError::Schema));
    assert_eq!(parse_sites("[1, 2]"), Err(FetchError::Schema));
    assert_eq!(sites_from_records(&None), Err(FetchError::Schema));
}

#[test]
fn invalid_json_is_a_decode_error() {
    assert_eq!(parse_sites("<html>"), Err(FetchError::Decode));
    assert_eq!(parse_sites(""), Err(FetchError::Decode));
}

#[test]
fn records_without_site_are_skipped() {
    let fields = vec![Some("a.com".to_string()), None, Some("a.com".to_string())];
    assert_eq!(present_site_list(&fields), strings(&["a.com", "a.com"]));
    assert_eq!(sites_from_records(&Some(fields)), Ok(strings(&["a.com", "a.com"])));
}

#[test]
fn fetch_error_messages() {
    assert_eq!(FetchError::Network.message(), "request to the registry failed");
    assert_eq!(FetchError::Decode.message(), "invalid JSON response");
    assert_eq!(
        FetchError::Schema.message(),
        "invalid JSON response: missing Records array"
    );
}

#[test]
fn extract_sites_reads_a_json_model() {
    let record = |site: JsonModel| JsonModel::Object(vec![("strSite".to_string(), site)]);
    let answer = JsonModel::Object(vec![
        ("Result".to_string(), JsonModel::Text("OK".to_string())),
        (
            "Records".to_string(),
            JsonModel::Array(vec![
                record(JsonModel::Text("z.com".to_string())),
                record(JsonModel::Number),
                JsonModel::Null,
                record(JsonModel::Text("a.com".to_string())),
            ]),
        ),
    ]);
    assert_eq!(extract_sites(&answer), Ok(strings(&["z.com", "a.com"])));
    let no_array = JsonModel::Object(vec![("Records".to_string(), JsonModel::Bool(true))]);
    assert_eq!(extract_sites(&no_array), Err(FetchError::Schema));
    assert_eq!(extract_sites(&JsonModel::Null), Err(FetchError::Schema));
}

#[test]
fn same_body_gives_same_sites() {
    let body = r#"{"Records":[{"strSite":"b.com"},{"strSite":"a.com"},{"strSite":"b.com"}]}"#;
    assert_eq!(parse_sites(body), parse_sites(body));
    assert_eq!(parse_sites(body), Ok(strings(&["b.com", "a.com", "b.com"])));
}

#[test]
fn nested_records_fields_are_read_verbatim() {
    let body = r#"{"Records":[{"strSite":"Exámple.com","x":{"strSite":"inner"}},{"strSite":null}]}"#;
    assert_eq!(parse_sites(body), Ok(strings(&["Ex\u{e1}mple.com"])));
}
