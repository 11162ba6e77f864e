use lanturn::site::{Site, MAX_STATUSES};

#[test]
fn initial_all_pending() {
    let site = Site::new("a", "http://a.example");
    let statuses = site.get_status_codes();
    assert_eq!(statuses.len(), MAX_STATUSES);
    assert!(statuses.iter().all(|s| s.is_none()));
    assert_eq!(site.name, "a");
    assert_eq!(site.url, "http://a.example");
}

#[test]
fn push_sets_front() {
    let mut site = Site::new("a", "http://a.example");
    site.push_status_code(Some(Ok(200)));
    let statuses = site.get_status_codes();
    assert_eq!(statuses.len(), MAX_STATUSES);
    assert_eq!(statuses[0], Some(Ok(200)));
    assert_eq!(statuses[1], None);
}

#[test]
fn push_never_exceeds_capacity() {
    let mut site = Site::new("a", "http://a.example");
    for i in 0..120u16 {
        site.push_status_code(Some(Ok(i)));
        assert!(site.get_status_codes().len() <= MAX_STATUSES);
    }
}

#[test]
fn eviction_after_capacity_plus_one() {
    // Push MAX_STATUSES + 1 outcomes onto the (already full) initial
    // buffer: exactly the last MAX_STATUSES pushed remain, most recent
    // first; the first one pushed was evicted along with every pending
    // entry.
    let mut site = Site::new("a", "http://a.example");
    for i in 0..(MAX_STATUSES as u16 + 1) {
        site.push_status_code(Some(Ok(i)));
    }
    let statuses = site.get_status_codes();
    assert_eq!(statuses.len(), MAX_STATUSES);
    for (idx, status) in statuses.iter().enumerate() {
        assert_eq!(*status, Some(Ok(MAX_STATUSES as u16 - idx as u16)));
    }
}

#[test]
fn failure_outcomes_are_recorded() {
    let mut site = Site::new("a", "http://a.example");
    site.push_status_code(Some(Err(())));
    assert_eq!(site.get_status_codes()[0], Some(Err(())));
}

#[test]
fn clone_copies_history() {
    let mut site = Site::new("a", "http://a.example");
    site.push_status_code(Some(Ok(503)));
    let copy = site.clone();
    assert_eq!(copy.name, site.name);
    assert_eq!(copy.url, site.url);
    assert_eq!(copy.get_status_codes(), site.get_status_codes());
    // The copy is independent: pushing onto it leaves the source site alone.
    let mut copy = copy;
    copy.push_status_code(Some(Ok(404)));
    assert_eq!(site.get_status_codes()[0], Some(Ok(503)));
    assert_eq!(copy.get_status_codes()[0], Some(Ok(404)));
}
