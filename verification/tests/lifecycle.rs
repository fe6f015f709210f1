//! Poll lifecycle: creation bounds, fee math, editing and deletion guards.

use poll_market::accounting::compute_fees;
use poll_market::errors::PollError;
use poll_market::keys::AccountKey;
use poll_market::poll::create_poll;
use poll_market::poll::delete_poll;
use poll_market::poll::edit_poll;
use poll_market::poll::PollStatus;

fn key(n: u64) -> AccountKey {
    AccountKey { w0: n, w1: 0, w2: 0, w3: 0 }
}

fn two_options() -> Vec<String> {
    vec!["Yes".to_string(), "No".to_string()]
}

#[test]
fn fees_scenario_a() {
    let fees = compute_fees(10_000).unwrap();
    assert_eq!(fees.platform_fee, 100);
    assert_eq!(fees.creator_reward, 100);
    assert_eq!(fees.pool_seed, 9_800);
}

#[test]
fn fees_floor_at_one_unit() {
    let fees = compute_fees(150).unwrap();
    assert_eq!(fees.platform_fee, 1);
    assert_eq!(fees.creator_reward, 1);
    assert_eq!(fees.pool_seed, 148);
}

#[test]
fn fees_tiny_investment_overflows() {
    assert_eq!(compute_fees(1), Err(PollError::Overflow));
    assert_eq!(compute_fees(2).unwrap().pool_seed, 0);
}

#[test]
fn create_poll_initial_state() {
    let p = create_poll(
        key(1),
        7,
        "Title".to_string(),
        "Desc".to_string(),
        "cat".to_string(),
        "".to_string(),
        two_options(),
        100,
        1_000,
        10_000,
        500,
    )
    .unwrap();
    assert_eq!(p.poll_id, 7);
    assert_eq!(p.creator, key(1));
    assert_eq!(p.vote_counts, vec![0, 0]);
    assert_eq!(p.total_pool_cents, 9_800);
    assert_eq!(p.platform_fee_cents, 100);
    assert_eq!(p.creator_reward_cents, 100);
    assert_eq!(p.status, PollStatus::Active);
    assert_eq!(p.winning_option, None);
    assert_eq!(p.total_voters, 0);
    assert_eq!(p.created_at, 500);
}

#[test]
fn create_poll_rejects_long_title() {
    let title: String = "x".repeat(65);
    let r = create_poll(
        key(1),
        1,
        title,
        "d".to_string(),
        "c".to_string(),
        "".to_string(),
        two_options(),
        100,
        1_000,
        10_000,
        500,
    );
    assert_eq!(r.err(), Some(PollError::TitleTooLong));
}

#[test]
fn create_poll_rejects_long_description() {
    let r = create_poll(
        key(1),
        1,
        "t".to_string(),
        "x".repeat(257),
        "c".to_string(),
        "".to_string(),
        two_options(),
        100,
        1_000,
        10_000,
        500,
    );
    assert_eq!(r.err(), Some(PollError::DescriptionTooLong));
}

#[test]
fn create_poll_rejects_long_category() {
    let r = create_poll(
        key(1),
        1,
        "t".to_string(),
        "d".to_string(),
        "x".repeat(33),
        "".to_string(),
        two_options(),
        100,
        1_000,
        10_000,
        500,
    );
    assert_eq!(r.err(), Some(PollError::CategoryTooLong));
}

#[test]
fn create_poll_rejects_long_image_url() {
    let r = create_poll(
        key(1),
        1,
        "t".to_string(),
        "d".to_string(),
        "c".to_string(),
        "x".repeat(257),
        two_options(),
        100,
        1_000,
        10_000,
        500,
    );
    assert_eq!(r.err(), Some(PollError::ImageUrlTooLong));
}

#[test]
fn create_poll_rejects_bad_option_counts() {
    let one = vec!["only".to_string()];
    let seven: Vec<String> = (0..7).map(|i| format!("o{}", i)).collect();
    for options in [one, seven] {
        let r = create_poll(
            key(1),
            1,
            "t".to_string(),
            "d".to_string(),
            "c".to_string(),
            "".to_string(),
            options,
            100,
            1_000,
            10_000,
            500,
        );
        assert_eq!(r.err(), Some(PollError::InvalidOptionCount));
    }
}

#[test]
fn create_poll_rejects_long_label() {
    let options = vec!["ok".to_string(), "x".repeat(33)];
    let r = create_poll(
        key(1),
        1,
        "t".to_string(),
        "d".to_string(),
        "c".to_string(),
        "".to_string(),
        options,
        100,
        1_000,
        10_000,
        500,
    );
    assert_eq!(r.err(), Some(PollError::OptionLabelTooLong));
}

#[test]
fn create_poll_rejects_zero_unit_price() {
    let r = create_poll(
        key(1),
        1,
        "t".to_string(),
        "d".to_string(),
        "c".to_string(),
        "".to_string(),
        two_options(),
        0,
        1_000,
        10_000,
        500,
    );
    assert_eq!(r.err(), Some(PollError::InvalidUnitPrice));
}

#[test]
fn create_poll_rejects_past_end_time() {
    let r = create_poll(
        key(1),
        1,
        "t".to_string(),
        "d".to_string(),
        "c".to_string(),
        "".to_string(),
        two_options(),
        100,
        500,
        10_000,
        500,
    );
    assert_eq!(r.err(), Some(PollError::EndTimeInPast));
}

#[test]
fn create_poll_rejects_low_investment() {
    let r = create_poll(
        key(1),
        1,
        "t".to_string(),
        "d".to_string(),
        "c".to_string(),
        "".to_string(),
        two_options(),
        100,
        1_000,
        99,
        500,
    );
    assert_eq!(r.err(), Some(PollError::InvestmentTooLow));
}

fn active_poll() -> poll_market::poll::PollAccount {
    create_poll(
        key(1),
        1,
        "t".to_string(),
        "d".to_string(),
        "c".to_string(),
        "".to_string(),
        two_options(),
        100,
        1_000,
        10_000,
        500,
    )
    .unwrap()
}

#[test]
fn edit_poll_renames_labels() {
    let mut p = active_poll();
    let r = edit_poll(
        &mut p,
        key(1),
        "t2".to_string(),
        "d2".to_string(),
        "c2".to_string(),
        "img".to_string(),
        vec!["Oui".to_string(), "Non".to_string()],
        2_000,
        600,
    );
    assert_eq!(r, Ok(()));
    assert_eq!(p.title, "t2");
    assert_eq!(p.options, vec!["Oui".to_string(), "Non".to_string()]);
    assert_eq!(p.end_time, 2_000);
    assert_eq!(p.unit_price_cents, 100);
    assert_eq!(p.total_pool_cents, 9_800);
}

#[test]
fn edit_poll_rejects_wrong_caller() {
    let mut p = active_poll();
    let r = edit_poll(
        &mut p,
        key(9),
        "t".to_string(),
        "d".to_string(),
        "c".to_string(),
        "".to_string(),
        two_options(),
        2_000,
        600,
    );
    assert_eq!(r.err(), Some(PollError::UnauthorizedNotCreator));
    assert_eq!(p.title, "t");
}

#[test]
fn edit_poll_rejects_option_count_change() {
    let mut p = active_poll();
    let r = edit_poll(
        &mut p,
        key(1),
        "t".to_string(),
        "d".to_string(),
        "c".to_string(),
        "".to_string(),
        vec!["a".to_string(), "b".to_string(), "c".to_string()],
        2_000,
        600,
    );
    assert_eq!(r.err(), Some(PollError::OptionCountMismatch));
    assert_eq!(p.options.len(), 2);
}

#[test]
fn edit_poll_rejects_after_end() {
    let mut p = active_poll();
    let r = edit_poll(
        &mut p,
        key(1),
        "t".to_string(),
        "d".to_string(),
        "c".to_string(),
        "".to_string(),
        two_options(),
        2_000,
        1_000,
    );
    assert_eq!(r.err(), Some(PollError::PollAlreadyEnded));
}

#[test]
fn delete_poll_allowed_without_votes() {
    let p = active_poll();
    assert_eq!(delete_poll(&p, key(1), 600), Ok(()));
}

#[test]
fn delete_poll_rejects_wrong_caller() {
    let p = active_poll();
    assert_eq!(delete_poll(&p, key(2), 600).err(), Some(PollError::UnauthorizedNotCreator));
}
