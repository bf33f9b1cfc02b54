use nexustui::launcher::{LaunchAction, LaunchStage, ServerLauncher};

fn describe(a: &LaunchAction) -> String {
    match a {
        LaunchAction::Connect => "connect".to_string(),
        LaunchAction::CheckPath(p) => format!("check {}", p),
        LaunchAction::Start { program, args, dir, wait_ms } => {
            format!("start {} {:?} in {} wait {}", program, args, dir, wait_ms)
        }
        LaunchAction::Done => "done".to_string(),
    }
}

#[test]
fn running_server_is_not_restarted() {
    let (mut l, a) = ServerLauncher::new();
    assert_eq!(describe(&a), "connect");
    assert_eq!(describe(&l.step(true)), "done");
    assert_eq!(l.stage(), LaunchStage::Finished);
}

#[test]
fn every_way_is_tried_in_order_when_nothing_works() {
    let (mut l, a) = ServerLauncher::new();
    let mut seen = vec![describe(&a)];
    // probe fails, first binary missing, second binary found but start fails,
    // first source dir missing, second source dir found but start fails
    for ok in [false, false, true, false, false, true, false] {
        seen.push(describe(&l.step(ok)));
    }
    assert_eq!(
        seen,
        vec![
            "connect",
            "check server/nexustui-server",
            "check ../server/nexustui-server",
            "start ../server/nexustui-server [] in ../server wait 600",
            "check server",
            "check ../server",
            "start go [\"run\", \".\"] in ../server wait 1000",
            "done",
        ]
    );
    assert_eq!(l.stage(), LaunchStage::Finished);
    assert_eq!(describe(&l.step(true)), "done");
}

#[test]
fn launcher_stops_after_a_start_connects() {
    let (mut l, _) = ServerLauncher::new();
    assert_eq!(describe(&l.step(false)), "check server/nexustui-server");
    assert_eq!(describe(&l.step(true)), "start server/nexustui-server [] in server wait 600");
    assert_eq!(describe(&l.step(true)), "done");
}
