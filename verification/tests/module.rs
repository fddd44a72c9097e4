use neutron_test_tube::module::Module;
use neutron_test_tube::slinky::SlinkyPrices;

struct Chain {
    height: u64,
}

struct Heights<'a> {
    chain: &'a Chain,
}

impl<'a> Module<'a, Chain> for Heights<'a> {
    fn new(runner: &'a Chain) -> Self {
        Heights { chain: runner }
    }
}

#[test]
fn a_module_borrows_its_runner() {
    let chain = Chain { height: 7 };
    let heights = Heights::new(&chain);
    assert_eq!(heights.chain.height, 7);
}

#[test]
fn slinky_prices_hold_their_pair() {
    let p = SlinkyPrices::new("ATOM".to_string(), "USD".to_string(), 1_000);
    assert_eq!(p.base, "ATOM");
    assert_eq!(p.quote, "USD");
    assert_eq!(p.price, 1_000);
}
