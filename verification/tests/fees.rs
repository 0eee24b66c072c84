use humidefi_dex::fees::{ration, Author, AuthorPayout, DealWithFees, FeeSettlement};

#[test]
fn ration_splits_by_weight() {
    assert_eq!(ration(1000, 0, 100), (0, 1000));
    assert_eq!(ration(1000, 20, 80), (200, 800));
    assert_eq!(ration(7, 1, 2), (2, 5));
    assert_eq!(ration(1000, 0, 0), (0, 0));
    assert_eq!(ration(u128::MAX, 3, 1), (u128::MAX / 4, u128::MAX - u128::MAX / 4));
    assert_eq!(ration(5, u32::MAX, u32::MAX), (5, 0));
}

#[test]
fn author_takes_nonzero_amounts() {
    let who = [4u8; 32];
    assert_eq!(Author::on_unbalanced(Some(who), 0), AuthorPayout::Nothing);
    assert_eq!(Author::on_unbalanced(Some(who), 9), AuthorPayout::Credit(who, 9));
    assert_eq!(Author::on_unbalanced(None, 9), AuthorPayout::Burn(9));
    assert_eq!(Author::on_nonzero_unbalanced(None, 3), AuthorPayout::Burn(3));
}

#[test]
fn fees_and_tips_go_to_author() {
    let who = [4u8; 32];
    assert_eq!(
        DealWithFees::on_unbalanceds(Some(who), &[100, 20]),
        FeeSettlement { treasury_burn: 0, author: AuthorPayout::Credit(who, 120) }
    );
    assert_eq!(
        DealWithFees::on_unbalanceds(Some(who), &[100]),
        FeeSettlement { treasury_burn: 0, author: AuthorPayout::Credit(who, 100) }
    );
    assert_eq!(
        DealWithFees::on_unbalanceds(None, &[100, 20, 999]),
        FeeSettlement { treasury_burn: 0, author: AuthorPayout::Burn(120) }
    );
    assert_eq!(
        DealWithFees::on_unbalanceds(Some(who), &[]),
        FeeSettlement { treasury_burn: 0, author: AuthorPayout::Nothing }
    );
    assert_eq!(
        DealWithFees::on_unbalanceds(Some(who), &[0, 0]),
        FeeSettlement { treasury_burn: 0, author: AuthorPayout::Nothing }
    );
    assert_eq!(
        DealWithFees::on_unbalanceds(Some(who), &[u128::MAX, 5]),
        FeeSettlement { treasury_burn: 0, author: AuthorPayout::Credit(who, u128::MAX) }
    );
}
