use vigil::detector::{categorize, is_watched_name, newest_watched, Category, FileStamp};
use vigil::message::Message;
use vigil::session::Session;
use vigil::spark::VigilSpark;
use vigil::watermark::Watermark;

fn stamp(path: &str, modified: u64) -> FileStamp {
    let name = path.rsplit('/').next().unwrap().to_string();
    FileStamp { path: path.to_string(), name, modified: Some(modified) }
}

#[test]
fn watched_extensions() {
    for name in ["a.tera", "a.html", "a.css", "a.scss", "a.js", "a.ts", "A.CSS", "b.Html", "x.y.js"] {
        assert!(is_watched_name(name), "{}", name);
    }
    for name in ["a.log", "a.txt", "css", ".css", "..", "a.", "a.jsx", "a.cs", "a.tsx", "tera"] {
        assert!(!is_watched_name(name), "{}", name);
    }
}

#[test]
fn categories_by_ending() {
    assert_eq!(categorize("templates/index.html.tera"), Category::Template);
    assert_eq!(categorize("templates/index.html"), Category::Template);
    assert_eq!(categorize("public/css/site.css"), Category::Stylesheet);
    assert_eq!(categorize("src/assets/site.scss"), Category::Stylesheet);
    assert_eq!(categorize("public/js/app.js"), Category::Script);
    assert_eq!(categorize("src/assets/app.ts"), Category::Script);
    assert_eq!(categorize("public/css/SITE.CSS"), Category::File);
    assert_eq!(categorize("notes"), Category::File);
}

#[test]
fn empty_tree_reports_nothing() {
    let mut w = Watermark::new(0);
    let files: Vec<FileStamp> = Vec::new();
    assert!(VigilSpark::check_template_changes(&mut w, &files).is_none());
    assert_eq!(w.load(), 0);
}

#[test]
fn burst_reports_newest_once() {
    let mut w = Watermark::new(10);
    let files = vec![
        stamp("templates/a.tera", 40),
        stamp("public/css/b.css", 55),
        stamp("public/js/c.js", 55),
        stamp("src/assets/d.ts", 20),
    ];
    let e = VigilSpark::check_template_changes(&mut w, &files).unwrap();
    assert_eq!(e.path, "public/css/b.css");
    assert_eq!(e.category, Category::Stylesheet);
    assert_eq!(w.load(), 55);
    assert!(VigilSpark::check_template_changes(&mut w, &files).is_none());
    assert_eq!(w.load(), 55);
}

#[test]
fn unchanged_tree_stays_quiet() {
    let mut w = Watermark::new(0);
    let files = vec![stamp("templates/a.html", 7), stamp("public/js/b.js", 9)];
    assert!(VigilSpark::check_template_changes(&mut w, &files).is_some());
    for _ in 0..5 {
        assert!(VigilSpark::check_template_changes(&mut w, &files).is_none());
        assert_eq!(w.load(), 9);
    }
}

#[test]
fn unwatched_extension_never_reports() {
    let mut w = Watermark::new(100);
    let files = vec![stamp("templates/server.log", 1_000_000), stamp("public/readme.txt", 999)];
    assert!(VigilSpark::check_template_changes(&mut w, &files).is_none());
    assert_eq!(w.load(), 100);
    let files = vec![stamp("templates/server.log", 1_000_000), stamp("public/css/a.css", 150)];
    let e = VigilSpark::check_template_changes(&mut w, &files).unwrap();
    assert_eq!(e.path, "public/css/a.css");
    assert_eq!(w.load(), 150);
}

#[test]
fn unreadable_time_is_not_observed() {
    let mut w = Watermark::new(0);
    let files = vec![FileStamp { path: "a.css".to_string(), name: "a.css".to_string(), modified: None }];
    assert!(VigilSpark::check_template_changes(&mut w, &files).is_none());
}

#[test]
fn newest_watched_picks_first_of_ties() {
    let files = vec![stamp("x.log", 90), stamp("a.js", 30), stamp("b.js", 30)];
    assert_eq!(newest_watched(&files), (30, Some(1)));
}

#[test]
fn watermark_never_decreases() {
    let mut w = Watermark::new(50);
    assert!(!w.advance(40));
    assert_eq!(w.load(), 50);
    assert!(w.advance(60));
    assert_eq!(w.load(), 60);
    let old = vec![stamp("a.css", 20)];
    assert!(VigilSpark::check_template_changes(&mut w, &old).is_none());
    assert_eq!(w.load(), 60);
}

#[test]
fn fresh_session_ignores_earlier_changes() {
    let mut w = Watermark::new(0);
    let files = vec![stamp("a.css", 100), stamp("b.html", 140)];
    let _s = Session::connect(&mut w, 150);
    assert_eq!(w.load(), 150);
    assert!(VigilSpark::check_template_changes(&mut w, &files).is_none());
}

#[test]
fn example_stylesheet_rewrite() {
    let mut w = Watermark::new(0);
    let _s = Session::connect(&mut w, 150);
    assert!(VigilSpark::check_template_changes(&mut w, &vec![stamp("a.css", 100)]).is_none());
    let e = VigilSpark::check_template_changes(&mut w, &vec![stamp("a.css", 160)]).unwrap();
    assert_eq!(e.path, "a.css");
    assert_eq!(e.category, Category::Stylesheet);
    assert_eq!(Message::Reload(e.path).text(), "reload:a.css");
    assert_eq!(w.load(), 160);
}
