use lanturn::app::App;
use lanturn::output_fmt::OutputFmt;
use lanturn::registry::SharedRegistry;
use lanturn::selected_tab::SelectedTab;
use lanturn::site::Site;

fn app_with_sites(n: usize) -> App {
    let mut sites = Vec::new();
    for i in 0..n {
        sites.push(Site::new(&format!("site{i}"), &format!("http://site{i}.example")));
    }
    App::new(SharedRegistry::new(sites), OutputFmt::default())
}

#[test]
fn initial_state() {
    let app = app_with_sites(2);
    assert_eq!(app.selected_tab, SelectedTab::Live);
    assert_eq!(app.get_selected_chart_site_idx(), 0);
    assert!(!app.is_closing());
    assert_eq!(app.output_fmt, OutputFmt::Line);
}

#[test]
fn tab_saturates_at_ends() {
    // From Live, prev stays at Live; next moves to Chart; a further next
    // stays at Chart.
    let mut app = app_with_sites(1);
    assert_eq!(app.selected_tab, SelectedTab::Live);
    app.prev_tab();
    assert_eq!(app.selected_tab, SelectedTab::Live);
    app.next_tab();
    assert_eq!(app.selected_tab, SelectedTab::Chart);
    app.next_tab();
    assert_eq!(app.selected_tab, SelectedTab::Chart);
    app.prev_tab();
    assert_eq!(app.selected_tab, SelectedTab::Live);
}

#[test]
fn selected_tab_next_prev() {
    assert_eq!(SelectedTab::Live.next(), SelectedTab::Chart);
    assert_eq!(SelectedTab::Chart.next(), SelectedTab::Chart);
    assert_eq!(SelectedTab::Chart.prev(), SelectedTab::Live);
    assert_eq!(SelectedTab::Live.prev(), SelectedTab::Live);
}

#[test]
fn chart_site_saturates_with_one_site() {
    // With a single registered site there is no site 1 to move to.
    let mut app = app_with_sites(1);
    app.next_chart_site();
    assert_eq!(app.get_selected_chart_site_idx(), 0);
}

#[test]
fn chart_site_navigation_saturates() {
    let mut app = app_with_sites(3);
    app.next_chart_site();
    assert_eq!(app.get_selected_chart_site_idx(), 1);
    app.next_chart_site();
    assert_eq!(app.get_selected_chart_site_idx(), 2);
    app.next_chart_site();
    assert_eq!(app.get_selected_chart_site_idx(), 2);
    app.prev_chart_site();
    assert_eq!(app.get_selected_chart_site_idx(), 1);
    app.prev_chart_site();
    assert_eq!(app.get_selected_chart_site_idx(), 0);
    app.prev_chart_site();
    assert_eq!(app.get_selected_chart_site_idx(), 0);
}

#[test]
fn chart_site_with_no_sites_stays_put() {
    let mut app = app_with_sites(0);
    app.next_chart_site();
    assert_eq!(app.get_selected_chart_site_idx(), 0);
    app.prev_chart_site();
    assert_eq!(app.get_selected_chart_site_idx(), 0);
}

#[test]
fn handle_key_dispatch() {
    let mut app = app_with_sites(2);
    // Chart navigation keys do nothing while the live tab is selected.
    app.handle_key('j');
    assert_eq!(app.get_selected_chart_site_idx(), 0);
    app.handle_key('l');
    assert_eq!(app.selected_tab, SelectedTab::Chart);
    app.handle_key('j');
    assert_eq!(app.get_selected_chart_site_idx(), 1);
    app.handle_key('k');
    assert_eq!(app.get_selected_chart_site_idx(), 0);
    app.handle_key('h');
    assert_eq!(app.selected_tab, SelectedTab::Live);
    // Unrecognized keys change nothing.
    app.handle_key('x');
    assert_eq!(app.selected_tab, SelectedTab::Live);
    assert_eq!(app.get_selected_chart_site_idx(), 0);
    assert!(!app.is_closing());
    app.handle_key('q');
    assert!(app.is_closing());
}

#[test]
fn close_is_one_way() {
    let mut app = app_with_sites(1);
    app.close();
    assert!(app.is_closing());
    app.handle_key('x');
    assert!(app.is_closing());
}

#[test]
fn tab_labels() {
    assert_eq!(SelectedTab::Live.label(), "Live");
    assert_eq!(SelectedTab::Chart.label(), "Chart");
}

#[test]
fn output_fmt_names_and_default() {
    assert_eq!(OutputFmt::default(), OutputFmt::Line);
    assert_eq!(OutputFmt::Line.name(), "line");
    assert_eq!(OutputFmt::Bullet.name(), "bullet");
}
