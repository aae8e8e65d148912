use wolfssl::sharing::SharingGroup;

#[test]
fn two_owners_release_exactly_once() {
    // A context cloned across two independent owners, then both dropped:
    // only the second drop releases the native resource.
    let mut group = SharingGroup::acquire();
    group.clone_token();
    assert_eq!(group.holders(), 2);

    let freed_first = group.drop_token();
    assert!(!freed_first);
    assert!(!group.released());

    let freed_second = group.drop_token();
    assert!(freed_second);
    assert!(group.released());
    assert_eq!(group.holders(), 0);
}

#[test]
fn repeated_clones_release_exactly_once() {
    let mut group = SharingGroup::acquire();
    for _ in 0..100 {
        group.clone_token();
    }
    assert_eq!(group.holders(), 101);

    let mut frees: u32 = 0;
    for _ in 0..101 {
        let freed = group.drop_token();
        if freed {
            frees += 1;
        }
    }
    assert_eq!(frees, 1);
    assert!(group.released());
}

#[test]
fn session_token_keeps_context_alive() {
    // The context's group: one token held by the application, then one more
    // cloned into a session.
    let mut group = SharingGroup::acquire();
    group.clone_token();

    // The application drops its own context reference.
    let freed = group.drop_token();
    assert!(!freed);
    assert!(!group.released());
    assert_eq!(group.holders(), 1);

    // Only dropping the session's token releases the context handle.
    let freed = group.drop_token();
    assert!(freed);
    assert!(group.released());
}

#[test]
fn clone_then_drop_is_invisible() {
    let mut group = SharingGroup::acquire();
    group.clone_token();
    let freed = group.drop_token();
    assert!(!freed);
    assert_eq!(group.holders(), 1);
    assert!(!group.released());
}
