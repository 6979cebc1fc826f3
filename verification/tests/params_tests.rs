use staked_content::chain_config::{Event, GenesisConfig, Pallet};
use staked_content::dispatch::DispatchError;
use staked_content::origin::Origin;

fn genesis_pallet() -> Pallet {
    GenesisConfig::default().build()
}

#[test]
fn genesis_defaults_are_observable_before_any_write() {
    let p = genesis_pallet();
    assert_eq!(p.post_stake(), 1000);
    assert_eq!(p.comment_stake(), 500);
    assert_eq!(p.min_upvote_cost(), 0);
    assert_eq!(p.min_downvote_cost(), 0);
    assert_eq!(p.pos_node_tax(), 0);
    assert_eq!(p.max_daily_posts(), 0);
    assert!(p.chain_cover_photo().is_empty());
    assert!(p.chain_description().is_empty());
    assert!(p.events.is_empty());
}

#[test]
fn explicit_genesis_values_are_stored() {
    let p = GenesisConfig { post_stake: 42, comment_stake: 7 }.build();
    assert_eq!(p.post_stake(), 42);
    assert_eq!(p.comment_stake(), 7);
}

#[test]
fn root_updates_post_stake_and_read_returns_the_written_value() {
    let mut p = genesis_pallet();
    let r = p.update_post_stake(Origin::Root, 2500);
    assert_eq!(r, Ok(()));
    assert_eq!(p.post_stake(), 2500);
    assert_eq!(p.comment_stake(), 500);
    assert_eq!(p.events, vec![Event::PostStakeUpdated(2500)]);
}

#[test]
fn root_updates_comment_stake_and_read_returns_the_written_value() {
    let mut p = genesis_pallet();
    let r = p.update_comment_stake(Origin::Root, 750);
    assert_eq!(r, Ok(()));
    assert_eq!(p.comment_stake(), 750);
    assert_eq!(p.post_stake(), 1000);
    assert_eq!(p.events, vec![Event::CommentStakeUpdated(750)]);
}

#[test]
fn non_root_update_post_stake_is_rejected_and_changes_nothing() {
    let mut p = genesis_pallet();
    let r = p.update_post_stake(Origin::Signed(9), 5000);
    assert_eq!(r, Err(DispatchError::BadOrigin));
    assert_eq!(p.post_stake(), 1000);
    assert!(p.events.is_empty());
}

#[test]
fn unsigned_update_comment_stake_is_rejected_and_changes_nothing() {
    let mut p = genesis_pallet();
    let r = p.update_comment_stake(Origin::Unsigned, 1);
    assert_eq!(r, Err(DispatchError::BadOrigin));
    assert_eq!(p.comment_stake(), 500);
    assert!(p.events.is_empty());
}

#[test]
fn successive_writes_each_overwrite_the_value() {
    let mut p = genesis_pallet();
    p.update_post_stake(Origin::Root, 10).unwrap();
    p.update_post_stake(Origin::Root, 20).unwrap();
    assert_eq!(p.post_stake(), 20);
    assert_eq!(
        p.events,
        vec![Event::PostStakeUpdated(10), Event::PostStakeUpdated(20)]
    );
}
