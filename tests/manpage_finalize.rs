use manpage::finalize::header_document;
use manpage::Manpage;
use std::path::PathBuf;

fn full_page() -> Manpage {
    let mut m = Manpage::new();
    m.name("\"prog\"".to_string())
        .description(Some("A tool.".to_string()))
        .author(Some("\"Jane Doe\"".to_string()))
        .version(Some("1.0".to_string()))
        .path(PathBuf::from("out/prog.mdoc"))
        .header_path(PathBuf::from("out/header.mdoc"))
        .footer_path(PathBuf::from("out/footer.mdoc"));
    m
}

#[test]
fn finalize_plans_three_documents() {
    let mut m = full_page();
    let body = m.render();
    let mut fin = m.finalize();
    assert!(m.path.is_none() && m.header_path.is_none() && m.footer_path.is_none());
    let a = fin.next_write().unwrap();
    assert_eq!(a.path, PathBuf::from("out/prog.mdoc"));
    assert_eq!(a.contents, body);
    assert_eq!(a.contents, "\n");
    fin.report(true);
    let h = fin.next_write().unwrap();
    assert_eq!(h.path, PathBuf::from("out/header.mdoc"));
    assert_eq!(h.contents, ".Dd $Mdocdate$\n.Dt PROG 1\n.Os\n.Sh NAME\n.Nm prog\n.Nd A tool.");
    fin.report(true);
    let f = fin.next_write().unwrap();
    assert_eq!(f.path, PathBuf::from("out/footer.mdoc"));
    assert_eq!(f.contents, ".Sh AUTHORS\nJane Doe");
    fin.report(true);
    assert!(fin.next_write().is_none());
}

#[test]
fn failed_body_write_stops_the_rest() {
    let mut m = full_page();
    let mut fin = m.finalize();
    let a = fin.next_write().unwrap();
    assert_eq!(a.path, PathBuf::from("out/prog.mdoc"));
    fin.report(false);
    assert!(fin.next_write().is_none());
    assert!(fin.next_write().is_none());
}

#[test]
fn failed_header_write_skips_footer() {
    let mut m = full_page();
    let mut fin = m.finalize();
    fin.next_write().unwrap();
    fin.report(true);
    fin.next_write().unwrap();
    fin.report(false);
    assert!(fin.next_write().is_none());
}

#[test]
fn only_set_targets_are_written() {
    let mut m = Manpage::new();
    m.name("x".to_string()).footer_path(PathBuf::from("f"));
    let mut fin = m.finalize();
    let f = fin.next_write().unwrap();
    assert_eq!(f.path, PathBuf::from("f"));
    assert_eq!(f.contents, ".Sh AUTHORS\n");
    assert!(fin.next_write().is_none());
    let mut empty = Manpage::new();
    assert!(empty.finalize().next_write().is_none());
}

#[test]
fn header_upper_cases_title_and_strips_periods() {
    let mut m = Manpage::new();
    m.name("straße".to_string()).description(Some("\"Does things...\"".to_string()));
    assert_eq!(m.header(), ".Dd $Mdocdate$\n.Dt STRASSE 1\n.Os\n.Sh NAME\n.Nm straße\n.Nd Does things.");
    let plain = Manpage::new();
    assert_eq!(plain.header(), ".Dd $Mdocdate$\n.Dt  1\n.Os\n.Sh NAME\n.Nm \n.Nd .");
}

#[test]
fn header_document_from_parts() {
    assert_eq!(
        header_document("\"TOOL\"", "tool", "Runs.."),
        ".Dd $Mdocdate$\n.Dt TOOL 1\n.Os\n.Sh NAME\n.Nm tool\n.Nd Runs."
    );
}

#[test]
fn footer_names_author() {
    let mut m = Manpage::new();
    m.author(Some("Ann".to_string()));
    assert_eq!(m.footer(), ".Sh AUTHORS\nAnn");
}
