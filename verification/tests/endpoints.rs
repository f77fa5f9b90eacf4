//! Endpoint result interpretation: the sample responses, each error
//! variant, and the token round trip into storage.

use screeps_api::{login, recent_pvp, template, ApiError, LoggedIn, RecentPvp};
use screeps_api::{CallInfo, LoginArgs, RecentPvpArgs, TokenStorage};

#[test]
fn parse_sample_login_success() {
    let response = login::Response {
        ok: 1,
        token: Some("c07924d3f556a355eba7cd59f4c21f670fda76c2".to_string()),
    };
    let logged_in = LoggedIn::from_raw(response).unwrap();
    assert_eq!(
        logged_in.token.as_str(),
        "c07924d3f556a355eba7cd59f4c21f670fda76c2"
    );
}

#[test]
fn login_not_ok_is_rejected() {
    let response = login::Response { ok: 0, token: Some("tok".to_string()) };
    match LoggedIn::from_raw(response) {
        Err(err) => assert_eq!(err, ApiError::NotOk(0)),
        Ok(_) => panic!("a response with ok != 1 must be rejected"),
    }
}

#[test]
fn login_without_token_is_rejected() {
    let response = login::Response { ok: 1, token: None };
    match LoggedIn::from_raw(response) {
        Err(ApiError::MissingField(field)) => assert_eq!(field, "token"),
        other => panic!("expected a missing-field error, got {other:?}"),
    }
}

#[test]
fn logged_in_token_returns_to_storage() {
    let mut storage = TokenStorage::new();
    let logged_in = LoggedIn::from_raw(login::Response {
        ok: 1,
        token: Some("tok123".to_string()),
    })
    .unwrap();
    logged_in.return_to(&mut storage);
    assert_eq!(storage.take().unwrap().as_str(), "tok123");
    assert!(storage.take().is_none());
}

#[test]
fn login_args_carry_credentials() {
    let args = LoginArgs::new("user@example.com".to_string(), "hunter2".to_string());
    assert_eq!(args.email(), "user@example.com");
    assert_eq!(args.password(), "hunter2");
}

fn room(id: &str, time: u32) -> recent_pvp::InnerRoom {
    recent_pvp::InnerRoom { id: id.to_string(), last_pvp_time: time }
}

#[test]
fn parse_sample_pvp() {
    let response = recent_pvp::Response {
        ok: 1,
        pvp: vec![
            (
                "shard0".to_string(),
                recent_pvp::InnerShard {
                    time: 20656327,
                    rooms: vec![
                        room("E5N39", 20656327),
                        room("W15S23", 20656326),
                        room("W63S12", 20656326),
                        room("W1N20", 20656323),
                        room("W54N97", 20656322),
                    ],
                },
            ),
            (
                "shard1".to_string(),
                recent_pvp::InnerShard { time: 265413, rooms: vec![room("E2S3", 265412)] },
            ),
        ],
    };
    let world = RecentPvp::from_raw(response).unwrap();
    assert_eq!(world.shards.len(), 2);

    let (name0, shard0) = &world.shards[0];
    assert_eq!(name0, "shard0");
    assert_eq!(shard0.reported_up_to, 20656327);
    assert_eq!(
        shard0.rooms,
        vec![
            ("E5N39".to_string(), 20656327),
            ("W15S23".to_string(), 20656326),
            ("W63S12".to_string(), 20656326),
            ("W1N20".to_string(), 20656323),
            ("W54N97".to_string(), 20656322),
        ]
    );

    let (name1, shard1) = &world.shards[1];
    assert_eq!(name1, "shard1");
    assert_eq!(shard1.reported_up_to, 265413);
    assert_eq!(shard1.rooms, vec![("E2S3".to_string(), 265412)]);
}

#[test]
fn pvp_not_ok_is_rejected() {
    let response = recent_pvp::Response { ok: -3, pvp: Vec::new() };
    match RecentPvp::from_raw(response) {
        Err(err) => assert_eq!(err, ApiError::NotOk(-3)),
        Ok(_) => panic!("a response with ok != 1 must be rejected"),
    }
}

#[test]
fn pvp_args_carry_bounds() {
    assert_eq!(RecentPvpArgs::since(100), RecentPvpArgs::Since { time: 100 });
    assert_eq!(RecentPvpArgs::within(50), RecentPvpArgs::WithinLast { ticks: 50 });
}

#[test]
fn parse_sample() {
    let response = template::Response { ok: 1 };
    assert!(CallInfo::from_raw(response).is_ok());
}

#[test]
fn template_not_ok_is_rejected() {
    let response = template::Response { ok: 2 };
    assert_eq!(CallInfo::from_raw(response), Err(ApiError::NotOk(2)));
}
