use rand_esdm::session::{
    esdm_rng_fini, esdm_rng_fini_priv, esdm_rng_init, esdm_rng_init_checked,
    esdm_rng_init_priv, esdm_rng_init_priv_checked, Session, SessionAction, SessionKind,
};

#[test]
fn new_session_is_closed() {
    let s = Session::new(SessionKind::Privileged);
    assert_eq!(s.refs(), 0);
    assert!(!s.is_open());
    assert_eq!(s.kind(), SessionKind::Privileged);
    assert_eq!(s.open_action(), SessionAction::Connect);
}

#[test]
fn first_open_connects_and_later_opens_share() {
    let mut s = Session::new(SessionKind::Unprivileged);
    assert_eq!(s.open_action(), SessionAction::Connect);
    assert!(s.open(Some(0)));
    assert_eq!(s.refs(), 1);
    assert_eq!(s.open_action(), SessionAction::Nothing);
    assert!(s.open(None));
    assert!(s.open(Some(-5)));
    assert_eq!(s.refs(), 3);
    assert!(s.is_open());
}

#[test]
fn failed_connect_leaves_session_closed() {
    let mut s = Session::new(SessionKind::Unprivileged);
    assert!(!s.would_open(Some(-1)));
    assert!(!s.open(Some(-1)));
    assert_eq!(s.refs(), 0);
    assert!(!s.open(None));
    assert_eq!(s.refs(), 0);
    assert!(s.would_open(Some(0)));
    assert!(s.open(Some(0)));
    assert_eq!(s.refs(), 1);
}

#[test]
fn last_close_disconnects() {
    let mut s = Session::new(SessionKind::Unprivileged);
    assert!(s.open(Some(0)));
    assert!(s.open(None));
    assert_eq!(s.close(), SessionAction::Nothing);
    assert_eq!(s.refs(), 1);
    assert_eq!(s.close(), SessionAction::Disconnect);
    assert_eq!(s.refs(), 0);
    assert_eq!(s.open_action(), SessionAction::Connect);
}

#[test]
fn balanced_opens_and_closes_connect_once() {
    for n in [1u32, 2, 10, 100] {
        let mut s = Session::new(SessionKind::Unprivileged);
        let mut connects = 0;
        let mut disconnects = 0;
        for _ in 0..n {
            let code = if s.open_action() == SessionAction::Connect {
                connects += 1;
                Some(0)
            } else {
                None
            };
            assert!(esdm_rng_init(&mut s, code));
        }
        for _ in 0..n {
            if esdm_rng_fini(&mut s) == SessionAction::Disconnect {
                disconnects += 1;
            }
        }
        assert_eq!(s.refs(), 0);
        assert_eq!(connects, 1);
        assert_eq!(disconnects, 1);
    }
}

#[test]
fn privileged_session_is_independent() {
    let mut unpriv = Session::new(SessionKind::Unprivileged);
    let mut privileged = Session::new(SessionKind::Privileged);
    esdm_rng_init_checked(&mut unpriv, Some(0));
    assert!(!esdm_rng_init_priv(&mut privileged, Some(-13)));
    assert_eq!(unpriv.refs(), 1);
    assert_eq!(privileged.refs(), 0);
    esdm_rng_init_priv_checked(&mut privileged, Some(0));
    esdm_rng_init_priv_checked(&mut privileged, None);
    assert_eq!(privileged.refs(), 2);
    assert_eq!(esdm_rng_fini_priv(&mut privileged), SessionAction::Nothing);
    assert_eq!(esdm_rng_fini_priv(&mut privileged), SessionAction::Disconnect);
    assert_eq!(esdm_rng_fini(&mut unpriv), SessionAction::Disconnect);
}
