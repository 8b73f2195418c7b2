use std::cell::RefCell;
use std::rc::Rc;

use releases::{Assets, ReleaseOptionsBuilder, ReleaseRef, Releases, Reply, Request, Verb};

/// A transport that sends nothing: it notes each request it is given and
/// answers with the request's verb and path.
#[derive(Clone)]
struct Echo {
    sent: Rc<RefCell<Vec<String>>>,
}

impl Echo {
    fn new() -> Echo {
        Echo { sent: Rc::new(RefCell::new(Vec::new())) }
    }

    fn send(&self, request: &Request) -> String {
        let verb = match request.verb {
            Verb::Get => "GET",
            Verb::Post { .. } => "POST",
            Verb::PostType { .. } => "POST",
            Verb::Patch { .. } => "PATCH",
            Verb::Delete => "DELETE",
        };
        let line = format!("{} {}", verb, request.path);
        self.sent.borrow_mut().push(line.clone());
        line
    }
}

#[test]
fn delete_issues_one_delete_to_the_release() {
    let transport = Echo::new();
    let releases = Releases::new(transport.clone(), "o", "r");
    let request = releases.delete(42);
    let answer = releases.client().send(&request);
    assert_eq!(answer, "DELETE /repos/o/r/releases/42");
    assert_eq!(*transport.sent.borrow(), vec!["DELETE /repos/o/r/releases/42".to_string()]);
    assert_eq!(
        request,
        Request {
            verb: Verb::Delete,
            path: "/repos/o/r/releases/42".to_string(),
            reply: Reply::Unit,
        }
    );
}

#[test]
fn descent_sends_nothing() {
    let transport = Echo::new();
    let releases = Releases::new(transport.clone(), "o", "r");
    let release = releases.get(7);
    let assets = release.assets();
    assert_eq!(assets.path(""), "/repos/o/r/releases/7/assets");
    assert!(transport.sent.borrow().is_empty());
}

#[test]
fn descent_shares_the_client() {
    let transport = Echo::new();
    let assets = Releases::new(transport.clone(), "o", "r").get(7).assets();
    assets.client().send(&assets.list());
    assert_eq!(*transport.sent.borrow(), vec!["GET /repos/o/r/releases/7/assets".to_string()]);
}

#[test]
fn descent_reaches_the_assets_of_the_release() {
    let cases: Vec<(&str, &str, u64)> = vec![
        ("o", "r", 0),
        ("octocat", "hello-world", 1),
        ("rust-lang", "rust", 9),
        ("a", "b", 10),
        ("a", "b", 4711),
        ("a", "b", 18446744073709551615),
    ];
    for (owner, repo, id) in cases {
        let expected = format!("/repos/{}/{}/releases/{}/assets", owner, repo, id);
        let via = Releases::new((), owner, repo).get(id).assets();
        assert_eq!(via.path(""), expected);
        let direct = Assets::new((), owner, repo, id);
        assert_eq!(direct.path(""), expected);
    }
}

#[test]
fn a_path_does_not_depend_on_the_depth_it_is_built_at() {
    let releases = Releases::new((), "o", "r");
    let release = releases.get(12);
    let assets = release.assets();
    assert_eq!(assets.path("/3"), release.path("/assets/3"));
    assert_eq!(release.path("/assets/3"), releases.path("/12/assets/3"));
    assert_eq!(assets.path("/3"), "/repos/o/r/releases/12/assets/3");
}

#[test]
fn ids_are_written_in_decimal() {
    let ids: Vec<u64> = vec![
        0,
        1,
        9,
        10,
        11,
        99,
        100,
        101,
        1000,
        12345,
        9007199254740993,
        9999999999999999999,
        10000000000000000000,
        18446744073709551614,
        18446744073709551615,
    ];
    for id in ids {
        let release = ReleaseRef::new((), "o", "r", id);
        assert_eq!(release.path(""), format!("/repos/o/r/releases/{}", id));
    }
}

#[test]
fn owner_and_repo_go_in_unchanged() {
    let releases = Releases::new((), "an owner", "re/po?x=1#y");
    assert_eq!(releases.path(""), "/repos/an owner/re/po?x=1#y/releases");
    let empty = Releases::new((), "", "");
    assert_eq!(empty.path(""), "/repos///releases");
    let wide = Releases::new((), "bj\u{f6}rn", "\u{1f980}");
    assert_eq!(wide.get(1).path("/x"), "/repos/bj\u{f6}rn/\u{1f980}/releases/1/x");
}

#[test]
fn releases_list() {
    let request = Releases::new((), "o", "r").list();
    assert_eq!(
        request,
        Request { verb: Verb::Get, path: "/repos/o/r/releases".to_string(), reply: Reply::ReleaseList }
    );
}

#[test]
fn releases_create() {
    let options = ReleaseOptionsBuilder::new("v1.0").name("first").build();
    let request = Releases::new((), "o", "r").create(&options);
    assert_eq!(
        request,
        Request {
            verb: Verb::Post { body: "{\"tag_name\":\"v1.0\",\"name\":\"first\"}".to_string() },
            path: "/repos/o/r/releases".to_string(),
            reply: Reply::Release,
        }
    );
}

#[test]
fn releases_edit() {
    let options = ReleaseOptionsBuilder::new("v1.0").draft(false).build();
    let request = Releases::new((), "o", "r").edit(42, &options);
    assert_eq!(
        request,
        Request {
            verb: Verb::Patch { body: "{\"tag_name\":\"v1.0\",\"draft\":false}".to_string() },
            path: "/repos/o/r/releases/42".to_string(),
            reply: Reply::Release,
        }
    );
}

#[test]
fn edit_and_delete_address_the_release_that_get_leads_to() {
    let releases = Releases::new((), "o", "r");
    let options = ReleaseOptionsBuilder::new("t").build();
    let there = releases.get(305).get().path;
    assert_eq!(there, "/repos/o/r/releases/305");
    assert_eq!(releases.edit(305, &options).path, there);
    assert_eq!(releases.delete(305).path, there);
}

#[test]
fn release_get() {
    let request = Releases::new((), "o", "r").get(42).get();
    assert_eq!(
        request,
        Request {
            verb: Verb::Get,
            path: "/repos/o/r/releases/42".to_string(),
            reply: Reply::Release,
        }
    );
}

#[test]
fn assets_list() {
    let request = Assets::new((), "o", "r", 42).list();
    assert_eq!(
        request,
        Request {
            verb: Verb::Get,
            path: "/repos/o/r/releases/42/assets".to_string(),
            reply: Reply::AssetList,
        }
    );
}

#[test]
fn assets_get() {
    let request = Assets::new((), "o", "r", 42).get(7);
    assert_eq!(
        request,
        Request {
            verb: Verb::Get,
            path: "/repos/o/r/releases/42/assets/7".to_string(),
            reply: Reply::Asset,
        }
    );
}

#[test]
fn assets_delete() {
    let request = Assets::new((), "o", "r", 42).delete(7);
    assert_eq!(
        request,
        Request {
            verb: Verb::Delete,
            path: "/repos/o/r/releases/42/assets/7".to_string(),
            reply: Reply::Unit,
        }
    );
}

#[test]
fn a_handle_may_be_used_again() {
    let releases = Releases::new((), "o", "r");
    assert_eq!(releases.delete(1).path, "/repos/o/r/releases/1");
    assert_eq!(releases.delete(2).path, "/repos/o/r/releases/2");
    assert_eq!(releases.list().path, "/repos/o/r/releases");
    assert_eq!(releases.path(""), "/repos/o/r/releases");
}

#[test]
fn a_cloned_handle_stands_for_the_same_place() {
    let transport = Echo::new();
    let releases = Releases::new(transport.clone(), "o", "r");
    let release = releases.get(3);
    let assets = release.assets();
    assert_eq!(releases.clone().list(), releases.list());
    assert_eq!(release.clone().get(), release.get());
    assert_eq!(assets.clone().list(), assets.list());
    let copy = assets.clone();
    copy.client().send(&copy.get(8));
    assert_eq!(*transport.sent.borrow(), vec!["GET /repos/o/r/releases/3/assets/8".to_string()]);
}
