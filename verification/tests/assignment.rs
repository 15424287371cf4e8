use sdp_engine::assign::{assign, Account, Pairing, Proxy, ProxyMode};

fn accounts(n: usize) -> Vec<Account> {
    (0..n).map(|i| Account::new(format!("+7(900)000-00-0{}", i), format!("token{}", i))).collect()
}

fn proxies(addrs: &[&str]) -> Vec<Proxy> {
    addrs
        .iter()
        .map(|a| Proxy { address: a.to_string(), active: true })
        .collect()
}

fn proxy_addresses(r: &[Pairing], proxies: &[Proxy]) -> Vec<Option<String>> {
    r.iter().map(|p| p.proxy.map(|i| proxies[i].address.clone())).collect()
}

#[test]
fn no_active_proxies_means_no_proxy_for_any_mode() {
    let accs = accounts(4);
    let prox: Vec<Proxy> = Vec::new();
    for mode in [ProxyMode::Off, ProxyMode::Repeat, ProxyMode::Moderate] {
        let r = assign(&accs, &prox, mode);
        assert_eq!(r.len(), 4);
        assert!(r.iter().all(|p| p.proxy.is_none()));
    }
    // strict mode with no proxies skips every account
    let r = assign(&accs, &prox, ProxyMode::Strict);
    assert_eq!(r.len(), 0);
}

#[test]
fn off_mode_assigns_no_proxy() {
    let accs = accounts(3);
    let prox = proxies(&["p0:1", "p1:1"]);
    let r = assign(&accs, &prox, ProxyMode::Off);
    assert_eq!(r.len(), 3);
    assert!(r.iter().all(|p| p.proxy.is_none()));
}

#[test]
fn repeat_mode_cycles_two_proxies_over_five_accounts() {
    let accs = accounts(5);
    let prox = proxies(&["P0", "P1"]);
    let r = assign(&accs, &prox, ProxyMode::Repeat);
    assert_eq!(r.len(), 5);
    // order of creation = reverse iteration order of active accounts
    let got: Vec<usize> = r.iter().map(|p| p.account).collect();
    assert_eq!(got, vec![4, 3, 2, 1, 0]);
    let addrs = proxy_addresses(&r, &prox);
    let want: Vec<Option<String>> = ["P0", "P1", "P0", "P1", "P0"]
        .iter()
        .map(|s| Some(s.to_string()))
        .collect();
    assert_eq!(addrs, want);
}

#[test]
fn moderate_mode_uses_each_proxy_once() {
    let accs = accounts(5);
    let prox = proxies(&["P0", "P1"]);
    let r = assign(&accs, &prox, ProxyMode::Moderate);
    assert_eq!(r.len(), 5);
    let addrs = proxy_addresses(&r, &prox);
    assert_eq!(
        addrs,
        vec![Some("P0".to_string()), Some("P1".to_string()), None, None, None]
    );
}

#[test]
fn strict_mode_three_on_three_pairs_one_to_one() {
    let accs = accounts(3);
    let prox = proxies(&["P0", "P1", "P2"]);
    let r = assign(&accs, &prox, ProxyMode::Strict);
    assert_eq!(r.len(), 3);
    let got: Vec<usize> = r.iter().map(|p| p.account).collect();
    assert_eq!(got, vec![2, 1, 0]);
    let addrs = proxy_addresses(&r, &prox);
    assert_eq!(
        addrs,
        vec![Some("P0".to_string()), Some("P1".to_string()), Some("P2".to_string())]
    );
}

#[test]
fn strict_mode_five_accounts_three_proxies_skips_two_earliest() {
    let accs = accounts(5);
    let prox = proxies(&["P0", "P1", "P2"]);
    let r = assign(&accs, &prox, ProxyMode::Strict);
    // exactly the two earliest accounts (indices 0 and 1) are skipped
    assert_eq!(r.len(), 3);
    let got: Vec<usize> = r.iter().map(|p| p.account).collect();
    assert_eq!(got, vec![2, 1, 0]);
    let addrs = proxy_addresses(&r, &prox);
    assert_eq!(
        addrs,
        vec![Some("P0".to_string()), Some("P1".to_string()), Some("P2".to_string())]
    );
}

#[test]
fn inactive_entries_are_filtered_out() {
    let mut accs = accounts(4);
    accs[1].active = false;
    let mut prox = proxies(&["P0", "P1"]);
    prox[0].active = false;
    let r = assign(&accs, &prox, ProxyMode::Repeat);
    assert_eq!(r.len(), 3);
    let got: Vec<usize> = r.iter().map(|p| p.account).collect();
    assert_eq!(got, vec![3, 2, 0]);
    let addrs = proxy_addresses(&r, &prox);
    // only P1 is active, so the one-proxy cycle repeats it
    assert_eq!(
        addrs,
        vec![Some("P1".to_string()), Some("P1".to_string()), Some("P1".to_string())]
    );
}

#[test]
fn account_and_proxy_records_start_active() {
    let a = Account::new("+7(900)000-00-00".to_string(), "tok".to_string());
    assert!(a.active);
    assert_eq!(a.phone, "+7(900)000-00-00");
    assert_eq!(a.token, "tok");
    let p = Proxy::new();
    assert!(p.active);
    assert_eq!(p.address, "");
}

#[test]
fn proxy_mode_labels_and_default() {
    assert_eq!(ProxyMode::Off.label(), "Off");
    assert_eq!(ProxyMode::Repeat.label(), "Repeat");
    assert_eq!(ProxyMode::Moderate.label(), "Moderate");
    assert_eq!(ProxyMode::Strict.label(), "Strict");
    assert_eq!(ProxyMode::default(), ProxyMode::Repeat);
}
