use wc_note::backup::{duration_modified_days, HtmlDotRevSweep, RevDotHtmlSweep, RevFileObs, DAYS_KEEP, FILES_LEAVE, PROBES};
use wc_note::json_value::{Json, JsonNumber};
use wc_note::page::Page;
use wc_note::page_json::{page_json_plain, PageJson};
use wc_note::records::{list_str, subsection_new, tracing_page_save, Log, Outcome, PathRecord, Upres};
use wc_note::renew::{json_rev, page_children_paths, renew_step, RenewAction, RenewEvent, RenewKind, RenewState};
use wc_note::upkeep_walk::UpkeepWalk;
use wc_note::url_parts::page_url;

fn old_file() -> RevFileObs {
    RevFileObs { is_file: true, modified_days: Some(DAYS_KEEP + 1), has_file_name: true }
}

fn new_file() -> RevFileObs {
    RevFileObs { is_file: true, modified_days: Some(1), has_file_name: true }
}

#[test]
fn record_first_outcome_kept() {
    let mut r = PathRecord::new();
    r.add(Outcome::Changed, "/a.html");
    r.add(Outcome::Failed, "/a.html");
    r.add(Outcome::Already, "/b.html");
    r.add(Outcome::Failed, "/c.html");
    assert!(r.handled_path("/a.html"));
    assert!(!r.handled_path("/z.html"));
    assert_eq!(r.changed_list(), vec!["/a.html".to_string()]);
    assert_eq!(r.failed_list(), vec!["/c.html".to_string()]);
    assert_eq!(r.already_list(), vec!["/b.html".to_string()]);
}

#[test]
fn upres_and_log_record_pages() {
    let p = Page::new("./pages", "/a.html");
    let q = Page::new("./pages", "/b.html");
    let mut u = Upres::new();
    assert!(!u.handled(&p));
    u.upgraded(&p);
    u.failed(&p);
    u.already(&q);
    assert!(u.handled(&p));
    assert_eq!(u.upgraded_list(), vec!["/a.html".to_string()]);
    assert!(u.failed_list().is_empty());
    assert_eq!(u.already_list(), vec!["/b.html".to_string()]);
    let mut l = Log::new();
    l.failed(&q);
    l.updated(&q);
    assert_eq!(l.failed_list(), vec!["/b.html".to_string()]);
    assert!(l.updated_list().is_empty());
    assert!(l.handled(&q));
}

#[test]
fn list_shown_with_its_length() {
    let mut list = vec!["x".to_string(), "y".to_string()];
    assert_eq!(list_str(&mut list), "2\nx\ny");
    assert_eq!(list, vec!["2".to_string(), "x".to_string(), "y".to_string()]);
    let mut empty: Vec<String> = vec![];
    assert_eq!(list_str(&mut empty), "0");
}

#[test]
fn log_subsection_template() {
    let s = subsection_new("updated");
    assert_eq!(s.get("title").unwrap().as_str(), Some("updated"));
    assert_eq!(s.get("href").unwrap().as_str(), Some("#updated"));
    assert_eq!(s.get("parent").unwrap().as_str(), Some("0"));
    assert_eq!(s.get("content").unwrap().len(), 1);
}

#[test]
fn record_written_into_log_page() {
    let mut r = PathRecord::new();
    r.add(Outcome::Changed, "/a.html");
    r.add(Outcome::Failed, "/b.html");
    let j = tracing_page_save(page_json_plain(), "updated", &r).unwrap();
    let subs = j.get_path(&["data", "subsection", "data"]).unwrap();
    assert_eq!(subs.get("0").unwrap().get("child").unwrap().len(), 3);
    let changed = subs.get("2").unwrap();
    assert_eq!(changed.get("title").unwrap().as_str(), Some("updated"));
    let text = changed.get("content").unwrap().at(0).unwrap().get("value").unwrap().as_str().unwrap().to_string();
    assert_eq!(text, "1\n/a.html");
    let failed = subs.get("1").unwrap().get("content").unwrap().at(0).unwrap().get("value").unwrap();
    assert_eq!(failed.as_str(), Some("1\n/b.html"));
    let already = subs.get("3").unwrap().get("content").unwrap().at(0).unwrap().get("value").unwrap();
    assert_eq!(already.as_str(), Some("0"));
    assert!(matches!(j.get_path(&["data", "subsection", "id", "id_next"]), Some(Json::Number(n)) if n.mantissa == 4));
    assert!(tracing_page_save(Json::new_object(), "updated", &r).is_none());
}

#[test]
fn days_of_an_age() {
    assert_eq!(duration_modified_days(0), Ok(0));
    assert_eq!(duration_modified_days(86399), Ok(0));
    assert_eq!(duration_modified_days(86400 * 31 + 5), Ok(31));
}

#[test]
fn html_dot_rev_sweep_keeps_newest() {
    // Page at revision 13: backups 3, 2, 1, 0 may go; 4 and newer stay.
    let mut s = HtmlDotRevSweep::new(13, FILES_LEAVE, DAYS_KEEP, false);
    assert_eq!(s.next_rev(), Some(3));
    assert!(s.should_move(old_file()));
    assert!(!s.should_move(new_file()));
    s.record(old_file(), true);
    assert_eq!(s.next_rev(), Some(2));
    s.record(new_file(), false);
    assert_eq!(s.next_rev(), Some(1));
    s.record(old_file(), false);
    s.record(old_file(), true);
    assert_eq!(s.next_rev(), None);
    assert_eq!(s.moved_revs(), vec![3, 0]);
    assert_eq!(s.moved_count(), 2);
    // Too few revisions: nothing to look at.
    assert_eq!(HtmlDotRevSweep::new(5, FILES_LEAVE, DAYS_KEEP, false).next_rev(), None);
}

#[test]
fn html_dot_rev_sweep_stops_on_skip() {
    let mut s = HtmlDotRevSweep::new(20, FILES_LEAVE, DAYS_KEEP, true);
    assert_eq!(s.next_rev(), Some(10));
    s.record(old_file(), true);
    s.record(new_file(), false);
    assert_eq!(s.next_rev(), None);
    assert_eq!(s.moved_revs(), vec![10]);
}

#[test]
fn rev_dot_html_sweep_probes_past_last_moved() {
    let mut s = RevDotHtmlSweep::new(false);
    assert_eq!(s.next_rev(), Some(0));
    s.record(true, true);
    // Moved 0: probing goes on up to 0 + PROBES.
    let mut tries = 1;
    while let Some(r) = s.next_rev() {
        assert!(r <= PROBES);
        s.record(true, false);
        tries += 1;
    }
    assert_eq!(tries, PROBES + 1);
    assert_eq!(s.moved_count(), 1);
    let mut t = RevDotHtmlSweep::new(true);
    t.record(false, false);
    assert_eq!(t.next_rev(), None);
    assert_eq!(t.moved_count(), 0);
}

fn rev_doc(rev: u64) -> Json {
    let mut j = page_json_plain();
    j.set_path(&["data", "page", "rev"], Json::Number(JsonNumber { positive: true, mantissa: rev, exponent: 0 }));
    j
}

#[test]
fn renewal_of_an_old_page() {
    let kind = RenewKind::Upgrade;
    let (s, a) = renew_step(kind, RenewState::Start, RenewEvent::Handled(false));
    assert!(matches!(a, RenewAction::ParseDom));
    let (s, a) = renew_step(kind, s, RenewEvent::Dom(Some(false)));
    assert!(matches!(a, RenewAction::ReadJson));
    let (s, a) = renew_step(kind, s, RenewEvent::Json(Some(rev_doc(5))));
    assert!(matches!(a, RenewAction::CheckExists(6)));
    let (s, a) = renew_step(kind, s, RenewEvent::Exists(true));
    assert!(matches!(a, RenewAction::CheckExists(7)));
    let (s, a) = renew_step(kind, s, RenewEvent::Exists(false));
    // The page as it is goes to the revision after the last backup found.
    assert!(matches!(a, RenewAction::WriteBackup(7)));
    let (s, a) = renew_step(kind, s, RenewEvent::Written(true));
    match a {
        RenewAction::Save(j) => assert_eq!(json_rev(&j), Some(8)),
        _ => panic!("expected a save"),
    }
    let (s, a) = renew_step(kind, s, RenewEvent::Saved(true));
    assert!(matches!(a, RenewAction::Record(Outcome::Changed)));
    assert!(matches!(s, RenewState::Finished));
}

#[test]
fn form_update_saves_after_backup() {
    let kind = RenewKind::FormUpdate;
    let (s, _) = renew_step(kind, RenewState::Start, RenewEvent::Handled(false));
    let (s, _) = renew_step(kind, s, RenewEvent::Dom(Some(false)));
    let (s, _) = renew_step(kind, s, RenewEvent::Json(Some(rev_doc(2))));
    let (s, a) = renew_step(kind, s, RenewEvent::Exists(false));
    assert!(matches!(a, RenewAction::WriteBackup(3)));
    let (_, a) = renew_step(kind, s, RenewEvent::Written(true));
    match a {
        RenewAction::Save(j) => assert_eq!(json_rev(&j), Some(4)),
        _ => panic!("expected a save"),
    }
}

#[test]
fn renewal_stops_early() {
    let kind = RenewKind::Upgrade;
    let (s, a) = renew_step(kind, RenewState::Start, RenewEvent::Handled(true));
    assert!(matches!(a, RenewAction::Stop));
    assert!(matches!(s, RenewState::Finished));
    let (s, _) = renew_step(kind, RenewState::Start, RenewEvent::Handled(false));
    let (_, a) = renew_step(kind, s, RenewEvent::Dom(Some(true)));
    assert!(matches!(a, RenewAction::Record(Outcome::Already)));
    let (s, _) = renew_step(kind, RenewState::Start, RenewEvent::Handled(false));
    let (_, a) = renew_step(kind, s, RenewEvent::Dom(None));
    assert!(matches!(a, RenewAction::Record(Outcome::Failed)));
    let (s, _) = renew_step(kind, RenewState::Start, RenewEvent::Handled(false));
    let (s, _) = renew_step(kind, s, RenewEvent::Dom(Some(false)));
    let (_, a) = renew_step(kind, s, RenewEvent::Json(None));
    assert!(matches!(a, RenewAction::Record(Outcome::Failed)));
    // An event that does not fit the state ends the renewal.
    let (s, a) = renew_step(kind, RenewState::Start, RenewEvent::Saved(true));
    assert!(matches!(a, RenewAction::Stop));
    assert!(matches!(s, RenewState::Finished));
}

#[test]
fn renewal_fails_when_backup_not_written() {
    let kind = RenewKind::Upgrade;
    let (s, _) = renew_step(kind, RenewState::Start, RenewEvent::Handled(false));
    let (s, _) = renew_step(kind, s, RenewEvent::Dom(Some(false)));
    let (s, _) = renew_step(kind, s, RenewEvent::Json(Some(Json::new_object())));
    // No revision: probing starts after 1.
    let (s, a) = renew_step(kind, s, RenewEvent::Exists(false));
    assert!(matches!(a, RenewAction::WriteBackup(2)));
    let (_, a) = renew_step(kind, s, RenewEvent::Written(false));
    assert!(matches!(a, RenewAction::Record(Outcome::Failed)));
}

#[test]
fn children_paths_of_a_page() {
    let mut p = PageJson::new();
    let s1 = p.subsection_new(0).unwrap();
    s1.href_set(&mut p, "child/c.html");
    let s2 = p.subsection_new(0).unwrap();
    s2.href_set(&mut p, "/elsewhere.html");
    let s3 = p.subsection_new(0).unwrap();
    s3.href_set(&mut p, "#local");
    let url = page_url(&Page::new("./pages", "/a/b.html")).unwrap();
    assert_eq!(page_children_paths(&url, &p), vec!["/a/child/c.html".to_string()]);
}

fn strs(v: &[&str]) -> Vec<String> {
    v.iter().map(|s| s.to_string()).collect()
}

#[test]
fn upgrade_walk_visits_each_page_once() {
    let mut w = UpkeepWalk::new(RenewKind::Upgrade, true, "/a.html");
    assert_eq!(w.next_page(), Some(("/a.html".to_string(), false)));
    assert!(w.renewed(Some(Outcome::Changed)));
    w.children(strs(&["/b.html", "/c.html", "/a.html"]));
    // The first child comes next, and its own children before its siblings.
    assert_eq!(w.next_page(), Some(("/b.html".to_string(), false)));
    assert!(w.renewed(Some(Outcome::Already)));
    w.children(strs(&["/d.html"]));
    assert_eq!(w.next_page(), Some(("/d.html".to_string(), false)));
    assert!(w.renewed(None));
    w.children(vec![]);
    assert_eq!(w.next_page(), Some(("/c.html".to_string(), false)));
    assert!(w.renewed(Some(Outcome::Failed)));
    w.children(strs(&["/b.html"]));
    // Pages met again are passed over.
    assert_eq!(w.next_page(), None);
    assert_eq!(w.record().changed_list(), strs(&["/a.html"]));
    assert_eq!(w.record().already_list(), strs(&["/b.html"]));
    assert_eq!(w.record().failed_list(), strs(&["/c.html"]));
}

#[test]
fn form_update_walk_goes_on_after_a_save() {
    let mut w = UpkeepWalk::new(RenewKind::FormUpdate, true, "/a.html");
    assert_eq!(w.next_page(), Some(("/a.html".to_string(), false)));
    assert!(w.renewed(Some(Outcome::Changed)));
    w.children(strs(&["/b.html", "/a.html"]));
    assert_eq!(w.next_page(), Some(("/b.html".to_string(), false)));
    // A page already in its form, or whose save failed, is not gone into.
    assert!(!w.renewed(Some(Outcome::Already)));
    // A page met again is handed out, marked as recorded.
    assert_eq!(w.next_page(), Some(("/a.html".to_string(), true)));
    assert!(!w.renewed(None));
    assert_eq!(w.next_page(), None);
    assert_eq!(w.record().changed_list(), strs(&["/a.html"]));
    assert_eq!(w.record().already_list(), strs(&["/b.html"]));
}

#[test]
fn walk_without_recursion_stays_on_the_page() {
    let mut w = UpkeepWalk::new(RenewKind::FormUpdate, false, "/a.html");
    assert_eq!(w.next_page(), Some(("/a.html".to_string(), false)));
    assert!(!w.renewed(Some(Outcome::Changed)));
    assert_eq!(w.next_page(), None);
    let mut u = UpkeepWalk::new(RenewKind::Upgrade, true, "/a.html");
    assert!(u.next_page().is_some());
    // An upgrade goes on whatever the outcome.
    assert!(u.renewed(None));
}
