use porecatu_ui::hyperlink::{
    classify_scheme, normalized_scheme, percent_decode, refused_outcome, LinkOutcome, LinkPolicy,
};

#[test]
fn http_https_mailto_open() {
    assert_eq!(classify_scheme("http://example.com"), LinkPolicy::Open);
    assert_eq!(classify_scheme("https://example.com"), LinkPolicy::Open);
    assert_eq!(classify_scheme("mailto:a@b.com"), LinkPolicy::Open);
}

#[test]
fn file_is_reveal_not_open() {
    assert_eq!(
        classify_scheme("file:///C:/Windows/System32/calc.exe"),
        LinkPolicy::Reveal
    );
}

#[test]
fn unknown_scheme_is_refused() {
    assert_eq!(classify_scheme("javascript:alert(1)"), LinkPolicy::Refuse);
    assert_eq!(classify_scheme("ms-msdt:whatever"), LinkPolicy::Refuse);
}

#[test]
fn sem_dois_pontos_e_recusado() {
    assert_eq!(classify_scheme("nao-e-uri"), LinkPolicy::Refuse);
}

#[test]
fn normaliza_maiusculas_antes_de_comparar() {
    assert_eq!(classify_scheme("HTTPS://example.com"), LinkPolicy::Open);
    assert_eq!(classify_scheme("FiLe:///tmp/a"), LinkPolicy::Reveal);
}

#[test]
fn normaliza_percent_encoding_antes_de_comparar() {
    assert_eq!(
        classify_scheme("%68%74%74%70://example.com"),
        LinkPolicy::Open
    );
}

#[test]
fn normaliza_espaco_antes_de_comparar() {
    assert_eq!(classify_scheme(" http://example.com"), LinkPolicy::Open);
}

#[test]
fn metacaractere_de_shell_no_uri_nao_afeta_a_classificacao() {
    let uri = "http://example.com/$(rm -rf ~); echo pwned";
    assert_eq!(classify_scheme(uri), LinkPolicy::Open);
}

// --- further cases ---

#[test]
fn percent_decode_decodes_and_rejects_broken_escapes() {
    assert_eq!(percent_decode("%68i"), Some("hi".to_owned()));
    assert_eq!(percent_decode("plain"), Some("plain".to_owned()));
    assert_eq!(percent_decode("%6"), None);
    assert_eq!(percent_decode("%zz"), None);
    assert_eq!(percent_decode("%ff"), None, "not UTF-8");
    assert_eq!(percent_decode("%C3%A9"), Some("é".to_owned()));
}

#[test]
fn normalized_scheme_is_trimmed_decoded_and_lowercased() {
    assert_eq!(normalized_scheme("  HT%54P :x"), Some("http".to_owned()));
    assert_eq!(normalized_scheme("no-colon"), None);
    assert_eq!(normalized_scheme("%g1:x"), None);
}

#[test]
fn an_undecodable_scheme_is_refused() {
    assert_eq!(classify_scheme("%zz://x"), LinkPolicy::Refuse);
}

#[test]
fn a_refused_link_reports_its_normalised_scheme() {
    assert_eq!(
        refused_outcome("JavaScript:alert(1)"),
        LinkOutcome::Refused { normalized_scheme: "javascript".to_owned() }
    );
    assert_eq!(
        refused_outcome("nao-e-uri"),
        LinkOutcome::Refused { normalized_scheme: String::new() }
    );
}

#[test]
fn a_sign_is_no_hex_digit() {
    assert_eq!(percent_decode("%+1"), None);
    assert_eq!(percent_decode("%+f"), None);
    assert_eq!(percent_decode("%68%74%74%70"), Some("http".to_owned()));
    assert_eq!(classify_scheme("%+8ttp://x"), LinkPolicy::Refuse);
}
