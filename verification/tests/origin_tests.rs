use staked_content::dispatch::DispatchError;
use staked_content::origin::{ensure_root, ensure_signed, Origin};

#[test]
fn only_root_passes_the_root_gate() {
    assert_eq!(ensure_root(Origin::Root), Ok(()));
    assert_eq!(ensure_root(Origin::Signed(1)), Err(DispatchError::BadOrigin));
    assert_eq!(ensure_root(Origin::Unsigned), Err(DispatchError::BadOrigin));
}

#[test]
fn only_signed_accounts_pass_the_signed_gate() {
    assert_eq!(ensure_signed(Origin::Signed(77)), Ok(77));
    assert_eq!(ensure_signed(Origin::Root), Err(DispatchError::BadOrigin));
    assert_eq!(ensure_signed(Origin::Unsigned), Err(DispatchError::BadOrigin));
}
