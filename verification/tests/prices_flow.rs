use investment_wallet::models::InvestmentAddress;
use investment_wallet::prices::{
    price_text, refresh_targets, token_price_url, AddressRule, PairQuote, PriceRefresh,
    RefreshAction,
};
use investment_wallet::replies::{page_reply, redirect_home, Reply};

fn inv(id: i32, address: Option<&str>) -> InvestmentAddress {
    InvestmentAddress { id, token_address: address.map(|a| a.to_string()) }
}

fn sample() -> Vec<InvestmentAddress> {
    vec![inv(10, None), inv(11, Some("")), inv(12, Some("So111")), inv(13, Some("JUP"))]
}

#[test]
fn quote_url_appends_the_address() {
    assert_eq!(
        token_price_url("So11111111111111111111111111111111111111112"),
        "https://api.dexscreener.com/latest/dex/tokens/So11111111111111111111111111111111111111112"
    );
    assert_eq!(token_price_url(""), "https://api.dexscreener.com/latest/dex/tokens/");
}

#[test]
fn price_text_of_first_pair() {
    let pairs = vec![
        PairQuote { price_usd: Some("1.25".to_string()) },
        PairQuote { price_usd: Some("9.99".to_string()) },
    ];
    assert_eq!(price_text(&pairs), "1.25");
}

#[test]
fn price_text_defaults_to_zero() {
    assert_eq!(price_text(&vec![]), "0");
    let pairs = vec![PairQuote { price_usd: None }, PairQuote { price_usd: Some("3".to_string()) }];
    assert_eq!(price_text(&pairs), "0");
}

#[test]
fn home_refresh_skips_missing_and_blank_addresses() {
    assert_eq!(refresh_targets(&sample(), &AddressRule::NonBlank), vec![2, 3]);
}

#[test]
fn periodic_refresh_takes_every_present_address() {
    assert_eq!(refresh_targets(&sample(), &AddressRule::Present), vec![1, 2, 3]);
    assert_eq!(refresh_targets(&vec![], &AddressRule::Present), Vec::<usize>::new());
}

#[test]
fn refresh_asks_for_each_price_and_stores_the_ones_that_came() {
    let invs = sample();
    let mut r = PriceRefresh::new(&invs, AddressRule::NonBlank);
    assert!(r.awaits_start());
    let a = r.start(&invs);
    assert_eq!(a, RefreshAction::FetchPrice { index: 2, address: "So111".to_string() });
    assert!(r.awaits_price());
    let a = r.price_fetched(&invs, true);
    assert_eq!(a, RefreshAction::StorePrice { index: 2, investment_id: 12 });
    assert!(r.awaits_store());
    let a = r.price_stored(&invs);
    assert_eq!(a, RefreshAction::FetchPrice { index: 3, address: "JUP".to_string() });
    let a = r.price_fetched(&invs, false);
    assert_eq!(a, RefreshAction::Finished);
    assert!(!r.awaits_price() && !r.awaits_store() && !r.awaits_start());
}

#[test]
fn refresh_without_targets_ends_at_once() {
    let invs = vec![inv(1, None), inv(2, Some(""))];
    let mut r = PriceRefresh::new(&invs, AddressRule::NonBlank);
    assert_eq!(r.start(&invs), RefreshAction::Finished);
}

#[test]
fn rendered_page_or_server_error() {
    assert_eq!(page_reply(Some("<p>ok</p>".to_string())), Reply::Html("<p>ok</p>".to_string()));
    assert_eq!(
        page_reply(None),
        Reply::ServerError("Erro ao renderizar template".to_string())
    );
    assert_eq!(redirect_home(), Reply::Redirect("/".to_string()));
}
