use lyrics_plus::addresses::{is_usable_ipv4, local_ip, order_local_addresses, web_addresses};

#[test]
fn usable_addresses() {
    assert!(is_usable_ipv4((192, 168, 1, 2)));
    assert!(!is_usable_ipv4((0, 0, 0, 0)));
    assert!(!is_usable_ipv4((127, 0, 0, 1)));
    assert!(!is_usable_ipv4((224, 0, 0, 251)));
    assert!(!is_usable_ipv4((255, 255, 255, 255)));
}

#[test]
fn addresses_are_sorted_deduplicated_with_the_preferred_first() {
    let list = vec![(10, 0, 0, 2), (192, 168, 1, 5), (10, 0, 0, 2), (10, 0, 0, 1)];
    assert_eq!(order_local_addresses(None, &list), vec![(10, 0, 0, 1), (10, 0, 0, 2), (192, 168, 1, 5)]);
    assert_eq!(
        order_local_addresses(Some((192, 168, 1, 5)), &list),
        vec![(192, 168, 1, 5), (10, 0, 0, 1), (10, 0, 0, 2)]
    );
    assert_eq!(order_local_addresses(Some((8, 8, 8, 8)), &vec![]), vec![(8, 8, 8, 8)]);
}

#[test]
fn web_addresses_carry_the_token() {
    let addresses = web_addresses(8787, "tok", &vec![(192, 168, 1, 5)]);
    assert_eq!(addresses[0].address, "192.168.1.5:8787");
    assert_eq!(addresses[0].url, "http://192.168.1.5:8787/?token=tok");
    assert_eq!(local_ip(None, &vec![]), "127.0.0.1");
    assert_eq!(local_ip(None, &vec![(10, 1, 2, 3)]), "10.1.2.3");
    assert_eq!(local_ip(Some((1, 2, 3, 4)), &vec![(10, 1, 2, 3)]), "1.2.3.4");
}
