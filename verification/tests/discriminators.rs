use blueshift_native_amm::instructions::deposit::Deposit;
use blueshift_native_amm::instructions::initialize::Initialize;
use blueshift_native_amm::instructions::swap::Swap;
use blueshift_native_amm::instructions::withdraw::Withdraw;

fn get_discriminator(instruction_index: u8) -> [u8; 1] {
    [instruction_index]
}

#[test]
fn test_discriminator_values() {
    let make_disc = get_discriminator(0);
    let take_disc = get_discriminator(1);
    let refund_disc = get_discriminator(2);

    assert_eq!(make_disc, [0]);
    assert_eq!(take_disc, [1]);
    assert_eq!(refund_disc, [2]);

    assert_ne!(make_disc, take_disc);
    assert_ne!(make_disc, refund_disc);
    assert_ne!(take_disc, refund_disc);

    println!("make discriminator: {:?}", make_disc);
    println!("take discriminator: {:?}", take_disc);
    println!("refund discriminator: {:?}", refund_disc);
}

#[test]
fn pool_operation_tags_are_distinct() {
    assert_eq!(get_discriminator(Initialize::DISCRIMINATOR), [0]);
    assert_eq!(get_discriminator(Deposit::DISCRIMINATOR), [1]);
    assert_eq!(get_discriminator(Withdraw::DISCRIMINATOR), [2]);
    assert_eq!(get_discriminator(Swap::DISCRIMINATOR), [3]);
}
