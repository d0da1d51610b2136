use ero_cassandra::{
    aquire, close, init, release, spawn, Admission, Call, ClusterParams, ConnectedCluster, Event,
    Heed, InitStep, LodeParams, Output, Params, RestartPolicy, SharedSession, Stage,
};
use std::time::Duration;

fn connected(name: &str) -> ConnectedCluster<u32, String> {
    ConnectedCluster {
        session: SharedSession::new(name.to_string()),
        cluster: 7,
        params: ClusterParams::default(),
    }
}

#[test]
fn shared_session_gives_the_session() {
    let session = SharedSession::new("session".to_string());
    assert_eq!(*session, "session");
    assert_eq!(session.len(), 7);
}

#[test]
fn shared_session_is_the_same_for_every_holder() {
    let first = SharedSession::new(vec![1u8, 2, 3]);
    let second = first.share();
    let third = second.share();
    assert_eq!(*first, vec![1u8, 2, 3]);
    assert_eq!(*second, vec![1u8, 2, 3]);
    assert!(std::ptr::eq(&*first, &*second));
    assert!(std::ptr::eq(&*first, &*third));
    drop(first);
    assert_eq!(*third, vec![1u8, 2, 3]);
}

#[test]
fn aquire_hands_out_the_session_and_keeps_the_cluster() {
    let before = connected("one");
    let holder = before.session.share();
    match aquire(before) {
        Ok((session, after)) => {
            assert_eq!(*session, "one");
            assert!(std::ptr::eq(&*session, &*holder));
            assert!(std::ptr::eq(&*after.session, &*holder));
            assert_eq!(after.cluster, 7);
            assert_eq!(after.params, ClusterParams::default());
        },
        Err(_) => panic!("a shared session can always be handed out"),
    }
}

#[test]
fn release_keeps_the_cluster() {
    let before = connected("two");
    let session = before.session.share();
    match release(before, Some(session)) {
        Ok(after) => {
            assert_eq!(*after.session, "two");
            assert_eq!(after.cluster, 7);
            assert_eq!(after.params, ClusterParams::default());
        },
        Err(_) => panic!("a shared session can always be taken back"),
    }
    match release(connected("three"), None) {
        Ok(after) => assert_eq!(*after.session, "three"),
        Err(_) => panic!("a shared session can always be taken back"),
    }
}

#[test]
fn close_gives_back_the_params() {
    let mut params = ClusterParams::default();
    params.keyspace = "events".to_string();
    params.num_threads_io = 9;
    let connected = ConnectedCluster {
        session: SharedSession::new(0u8),
        cluster: (),
        params: params.clone(),
    };
    assert_eq!(close(connected), Ok(params));
}

#[test]
fn spawn_begins_the_supervision() {
    let mut cluster_params = ClusterParams::default();
    cluster_params.contact_points = "10.1.1.1".to_string();
    let wait = Duration::from_secs(2);
    let lode = spawn(Params {
        cluster_params: cluster_params.clone(),
        lode_params: LodeParams {
            name: "session",
            restart_policy: RestartPolicy::Delay { restart_after: wait },
            admission: Admission::Queue { capacity: 16 },
        },
    });
    assert_eq!(lode.name, "session");
    assert_eq!(lode.supervisor.stage(), Stage::Initializing);
    assert_eq!(lode.supervisor.policy(), RestartPolicy::Delay { restart_after: wait });
    assert_eq!(lode.supervisor.capacity(), 16);
    assert_eq!(lode.supervisor.generation(), 0);
    assert_eq!(
        lode.first,
        Output {
            replies: vec![],
            call: Call::Init { params: cluster_params, attempt: 0, wait: None },
            exit: None,
            heed: Heed::Handled,
        }
    );
    match lode.first.call {
        Call::Init { params, .. } => {
            assert_eq!(init(params).step(), InitStep::ContactPoints("10.1.1.1".to_string()));
        },
        _ => panic!("the first call is the first init"),
    }

    let mut supervisor = lode.supervisor;
    let made = supervisor.step(Event::InitDone(Ok(())));
    assert_eq!(made.call, Call::Nothing);
    assert_eq!(supervisor.stage(), Stage::Ready);
}

#[test]
fn spawn_with_fail_fast_lets_none_wait() {
    let lode = spawn(Params {
        cluster_params: ClusterParams::default(),
        lode_params: LodeParams {
            name: String::from("fast"),
            restart_policy: RestartPolicy::Immediate,
            admission: Admission::FailFast,
        },
    });
    assert_eq!(lode.name, "fast");
    assert_eq!(lode.supervisor.capacity(), 0);
    assert_eq!(lode.supervisor.policy(), RestartPolicy::Immediate);
    assert_eq!(
        lode.first.call,
        Call::Init { params: ClusterParams::default(), attempt: 0, wait: None }
    );
}
