use game_server_list::{IpAddr, Ipv4Addr, Pagination, ServerEntry, ServerList};

fn entry(name: &str) -> ServerEntry {
    ServerEntry::new(
        String::from(name),
        IpAddr::V4(Ipv4Addr::new(127, 0, 0, 1)),
    )
}

#[test]
fn add_server() {
    let server = ServerEntry::new(
        String::from("Test"),
        IpAddr::V4(Ipv4Addr::new(127, 0, 0, 1)),
    );
    let mut server_list = ServerList::new();
    assert_eq!(server_list.len(), 0);
    server_list.add(server);
    assert_eq!(server_list.len(), 1);
}

#[test]
fn remove_server() {
    let server = ServerEntry::new(
        String::from("Test"),
        IpAddr::V4(Ipv4Addr::new(127, 0, 0, 1)),
    );
    let mut server_list = ServerList::new();
    let uuid = server_list.add(server);
    assert_eq!(server_list.len(), 1);
    server_list.remove(&uuid);
    assert_eq!(server_list.len(), 0);
}

#[test]
fn new_entry_has_no_players() {
    let server = entry("Test");
    assert_eq!(server.name, "Test");
    assert_eq!(server.ip, IpAddr::V4(Ipv4Addr::new(127, 0, 0, 1)));
    assert_eq!(server.players, 0);
}

#[test]
fn default_list_is_empty() {
    let server_list: ServerList<ServerEntry> = ServerList::default();
    assert!(server_list.is_empty());
    assert_eq!(server_list.len(), 0);
}

#[test]
fn ids_are_random_uuids() {
    let mut server_list = ServerList::new();
    let mut ids = Vec::new();
    for n in 0..100 {
        ids.push(server_list.add(n));
    }
    assert_eq!(server_list.len(), 100);
    assert!(!server_list.is_empty());
    for id in &ids {
        let uuid = uuid::Uuid::from_u128(*id);
        assert_eq!(uuid.get_version_num(), 4);
        assert_eq!(uuid.get_variant(), uuid::Variant::RFC4122);
        assert_eq!(ids.iter().filter(|other| *other == id).count(), 1);
    }
}

#[test]
fn remove_gives_the_server_back() {
    let mut server_list = ServerList::new();
    let first = server_list.add(entry("first"));
    let second = server_list.add(entry("second"));
    assert_eq!(server_list.remove(&first).map(|server| server.name), Some("first".to_string()));
    assert!(server_list.remove(&first).is_none());
    assert_eq!(server_list.len(), 1);
    assert_eq!(server_list.remove(&second).map(|server| server.name), Some("second".to_string()));
    assert!(server_list.is_empty());
}

#[test]
fn taken_id_is_refused() {
    let mut server_list = ServerList::new();
    assert_eq!(server_list.add_as(7, "first"), Ok(()));
    assert_eq!(server_list.add_as(7, "second"), Err("second"));
    assert_eq!(server_list.len(), 1);
    assert_eq!(server_list.remove(&7), Some("first"));
}

#[test]
fn update_alters_the_named_server_alone() {
    let mut server_list = ServerList::new();
    let first = server_list.add(1);
    let second = server_list.add(2);
    assert!(server_list.update(&first, |n| *n = *n + 10));
    assert_eq!(server_list.remove(&first), Some(11));
    assert_eq!(server_list.remove(&second), Some(2));
    assert!(!server_list.update(&first, |n| *n = 0));
    assert!(server_list.is_empty());
}

#[test]
fn default_page_is_the_whole_list() {
    let mut server_list = ServerList::new();
    for n in 0..5 {
        server_list.add(n);
    }
    let mut page: Vec<i32> = server_list
        .get(&Pagination::default())
        .into_iter()
        .copied()
        .collect();
    page.sort();
    assert_eq!(page, vec![0, 1, 2, 3, 4]);
}

#[test]
fn pages_make_up_the_list() {
    let mut server_list = ServerList::new();
    for n in 0..5 {
        server_list.add(n);
    }
    let mut seen: Vec<i32> = Vec::new();
    for offset in [0, 2, 4] {
        let page = server_list.get(&Pagination {
            offset: Some(offset),
            limit: Some(2),
        });
        assert_eq!(page.len(), if offset == 4 { 1 } else { 2 });
        seen.extend(page.into_iter().copied());
    }
    seen.sort();
    assert_eq!(seen, vec![0, 1, 2, 3, 4]);
}

#[test]
fn one_question_has_one_answer() {
    let mut server_list = ServerList::new();
    for n in 0..50 {
        server_list.add(n);
    }
    let page = Pagination {
        offset: Some(10),
        limit: Some(20),
    };
    assert_eq!(server_list.get(&page), server_list.get(&page));
    assert_eq!(server_list.get(&page).len(), 20);
}

#[test]
fn page_past_the_end_is_empty() {
    let mut server_list = ServerList::new();
    server_list.add("only");
    let past = Pagination {
        offset: Some(1),
        limit: None,
    };
    assert!(server_list.get(&past).is_empty());
    let far_past = Pagination {
        offset: Some(usize::MAX),
        limit: Some(usize::MAX),
    };
    assert!(server_list.get(&far_past).is_empty());
    let none = Pagination {
        offset: None,
        limit: Some(0),
    };
    assert!(server_list.get(&none).is_empty());
}

#[test]
fn page_is_cut_out_of_the_listing() {
    let listing = vec![&10, &20, &30, &40];
    let page = Pagination {
        offset: Some(1),
        limit: Some(2),
    };
    assert_eq!(page.select(&listing), vec![&20, &30]);
    let rest = Pagination {
        offset: Some(3),
        limit: Some(usize::MAX),
    };
    assert_eq!(rest.select(&listing), vec![&40]);
}
