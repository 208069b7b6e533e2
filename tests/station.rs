use std::sync::Arc;
use wifi_station::client::{accepted_or_closed, reply_or_closed};
use wifi_station::station::{snapshot, Action, Station};
use wifi_station::types::{
    Broadcast, Error, JoinOutcome, NetworkConfig, NetworkResult, Request, ScanResult, SelectResult,
    SetNetwork,
};

fn station_with(n: usize) -> Station {
    let mut s = Station::new();
    for i in 0..n {
        assert_eq!(s.step(Request::AddNetwork), Action::ReplyNetworkId(i));
    }
    s
}

fn scan_result(ssid: &str, signal: i32) -> ScanResult {
    ScanResult {
        bssid: "00:11:22:33:44:55".to_string(),
        frequency: 2412,
        signal,
        flags: "[WPA2-PSK-CCMP][ESS]".to_string(),
        ssid: ssid.to_string(),
    }
}

#[test]
fn add_set_select_scenario() {
    let mut s = Station::new();
    assert_eq!(s.step(Request::AddNetwork), Action::ReplyNetworkId(0));
    assert_eq!(
        s.step(Request::SetNetwork(0, SetNetwork::Ssid("home".to_string()))),
        Action::Applied
    );
    let first = s.step(Request::SelectNetwork(0));
    assert_eq!(
        first,
        Action::BeginSelect(NetworkConfig { id: 0, ssid: "home".to_string(), psk: String::new() })
    );
    assert_eq!(s.pending_select(), Some(0));
    assert_eq!(
        s.step(Request::SelectNetwork(0)),
        Action::ReplySelect(SelectResult::PendingSelect)
    );
    let (reply, event) = s.resolve_select(JoinOutcome::Joined);
    assert_eq!(reply, Some(SelectResult::Success));
    assert_eq!(event, Broadcast::Connected);
    assert_eq!(s.pending_select(), None);
}

#[test]
fn select_outcomes_follow_link_layer() {
    for (outcome, result, event) in [
        (JoinOutcome::Joined, SelectResult::Success, Broadcast::Connected),
        (JoinOutcome::WrongPsk, SelectResult::WrongPsk, Broadcast::WrongPsk),
        (JoinOutcome::NotFound, SelectResult::NotFound, Broadcast::NetworkNotFound),
    ] {
        let mut s = station_with(1);
        assert!(matches!(s.step(Request::SelectNetwork(0)), Action::BeginSelect(_)));
        assert_eq!(s.resolve_select(outcome), (Some(result), event));
    }
}

#[test]
fn late_outcome_is_event_only() {
    let mut s = station_with(1);
    assert_eq!(s.resolve_select(JoinOutcome::NotFound), (None, Broadcast::NetworkNotFound));
}

#[test]
fn select_unknown_network_scenario() {
    let mut s = station_with(2);
    assert_eq!(
        s.step(Request::SelectNetwork(99)),
        Action::ReplySelect(SelectResult::InvalidNetworkId)
    );
    assert_eq!(s.pending_select(), None);
}

#[test]
fn select_unknown_network_while_pending() {
    let mut s = station_with(2);
    assert!(matches!(s.step(Request::SelectNetwork(1)), Action::BeginSelect(_)));
    assert_eq!(
        s.step(Request::SelectNetwork(7)),
        Action::ReplySelect(SelectResult::InvalidNetworkId)
    );
    assert_eq!(s.pending_select(), Some(1));
}

#[test]
fn many_selects_start_one() {
    let mut s = station_with(3);
    let mut started = 0;
    for id in [2, 0, 1, 2, 5, 0] {
        match s.step(Request::SelectNetwork(id)) {
            Action::BeginSelect(c) => {
                started += 1;
                assert_eq!(c.id, 2);
            }
            Action::ReplySelect(r) => {
                let expected = if id == 5 {
                    SelectResult::InvalidNetworkId
                } else {
                    SelectResult::PendingSelect
                };
                assert_eq!(r, expected);
            }
            other => panic!("unexpected action {:?}", other),
        }
    }
    assert_eq!(started, 1);
}

#[test]
fn scan_snapshots_are_independent() {
    let mut s = station_with(0);
    assert_eq!(s.step(Request::Scan), Action::PerformScan);
    let first = snapshot(vec![scan_result("home", -40), scan_result("cafe", -70)]);
    let kept = Arc::clone(&first);
    assert_eq!(s.step(Request::Scan), Action::PerformScan);
    let second = snapshot(vec![scan_result("home", -40), scan_result("cafe", -70)]);
    assert!(!Arc::ptr_eq(&first, &second));
    assert_eq!(*first, *second);
    drop(second);
    assert_eq!(kept.len(), 2);
    assert_eq!(kept[0].ssid, "home");
    assert_eq!(kept[1].signal, -70);
    assert!(Arc::ptr_eq(&first, &kept));
}

#[test]
fn refused_after_shutdown() {
    let mut s = station_with(1);
    assert!(s.is_running());
    assert_eq!(s.step(Request::Shutdown), Action::Stop);
    assert!(!s.is_running());
    let later = vec![
        Request::Status,
        Request::Networks,
        Request::Scan,
        Request::AddNetwork,
        Request::SetNetwork(0, SetNetwork::Psk("new-pass".to_string())),
        Request::SaveConfig,
        Request::RemoveNetwork(0),
        Request::SelectNetwork(0),
        Request::Shutdown,
    ];
    for req in later {
        let expects = req.expects_reply();
        assert_eq!(s.step(req), Action::Refuse);
        // A refused request's reply handle is dropped unanswered.
        if expects {
            assert_eq!(
                reply_or_closed::<u8>(true, None),
                Err(Error::WifiStationRequestChannelClosed)
            );
        }
    }
}

#[test]
fn networks_and_save_config() {
    let mut s = station_with(2);
    s.step(Request::SetNetwork(1, SetNetwork::Ssid("office".to_string())));
    s.step(Request::SetNetwork(1, SetNetwork::Psk("office-pass".to_string())));
    assert_eq!(
        s.step(Request::Networks),
        Action::ReplyNetworks(vec![
            NetworkResult { network_id: 0, ssid: String::new() },
            NetworkResult { network_id: 1, ssid: "office".to_string() },
        ])
    );
    assert_eq!(
        s.step(Request::SaveConfig),
        Action::Persist(vec![
            NetworkConfig { id: 0, ssid: String::new(), psk: String::new() },
            NetworkConfig { id: 1, ssid: "office".to_string(), psk: "office-pass".to_string() },
        ])
    );
}

#[test]
fn removed_ids_are_not_reused() {
    let mut s = station_with(3);
    assert_eq!(s.step(Request::RemoveNetwork(1)), Action::Applied);
    assert_eq!(s.step(Request::RemoveNetwork(1)), Action::UnknownNetwork(1));
    assert_eq!(
        s.step(Request::SelectNetwork(1)),
        Action::ReplySelect(SelectResult::InvalidNetworkId)
    );
    assert_eq!(s.step(Request::AddNetwork), Action::ReplyNetworkId(3));
    match s.step(Request::Networks) {
        Action::ReplyNetworks(v) => {
            let ids: Vec<usize> = v.iter().map(|n| n.network_id).collect();
            assert_eq!(ids, vec![0, 2, 3]);
        }
        other => panic!("unexpected action {:?}", other),
    }
}

#[test]
fn edit_unknown_network_is_reported() {
    let mut s = station_with(1);
    assert_eq!(
        s.step(Request::SetNetwork(4, SetNetwork::Ssid("x".to_string()))),
        Action::UnknownNetwork(4)
    );
    assert_eq!(s.step(Request::Status), Action::FetchStatus);
}

#[test]
fn reply_kinds() {
    assert!(Request::Status.expects_reply());
    assert!(Request::SelectNetwork(3).expects_reply());
    assert!(!Request::SaveConfig.expects_reply());
    assert!(!Request::RemoveNetwork(3).expects_reply());
    assert!(!Request::Shutdown.expects_reply());
}

#[test]
fn channel_failures_are_one_kind() {
    assert_eq!(reply_or_closed(true, Some(5usize)), Ok(5));
    assert_eq!(reply_or_closed(true, Some(SelectResult::WrongPsk)), Ok(SelectResult::WrongPsk));
    assert_eq!(reply_or_closed::<usize>(false, None), Err(Error::WifiStationRequestChannelClosed));
    assert_eq!(reply_or_closed(false, Some(1u8)), Err(Error::WifiStationRequestChannelClosed));
    assert_eq!(reply_or_closed::<u8>(true, None), Err(Error::WifiStationRequestChannelClosed));
    assert_eq!(accepted_or_closed(true), Ok(()));
    assert_eq!(accepted_or_closed(false), Err(Error::WifiStationRequestChannelClosed));
}

#[test]
fn select_result_text() {
    assert_eq!(SelectResult::Success.to_string(), "success");
    assert_eq!(SelectResult::WrongPsk.to_string(), "wrong_psk");
    assert_eq!(SelectResult::NotFound.to_string(), "network_not_found");
    assert_eq!(SelectResult::PendingSelect.to_string(), "select_already_pending");
    assert_eq!(SelectResult::InvalidNetworkId.to_string(), "invalid_network_id");
}

#[test]
fn subscribers_get_events_from_attachment_on() {
    let (tx, mut early) = tokio::sync::broadcast::channel::<Broadcast>(16);
    tx.send(Broadcast::Ready).unwrap();
    let mut late = tx.subscribe();
    tx.send(Broadcast::Disconnected).unwrap();
    assert_eq!(early.try_recv().unwrap(), Broadcast::Ready);
    assert_eq!(early.try_recv().unwrap(), Broadcast::Disconnected);
    assert_eq!(late.try_recv().unwrap(), Broadcast::Disconnected);
    assert!(late.try_recv().is_err());
}
