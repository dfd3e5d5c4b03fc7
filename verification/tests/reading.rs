use proxy_selector::address::has_slash;
use proxy_selector::{IpAddress, IpBlock, Proxies, ProxyUrl, UnrecognizedProxySelector};

fn block(address: IpAddress, prefix_len: u8) -> IpBlock {
    IpBlock::new(address, prefix_len).unwrap()
}

#[test]
fn ipv4_address_is_an_interface() {
    let proxy = Proxies::from_text("192.168.1.1").unwrap();
    assert_eq!(proxy, Proxies::Iface(IpAddress::V4(0xc0a8_0101)));
    assert_eq!(proxy.to_text(), "192.168.1.1");
}

#[test]
fn socks5_url_is_an_upstream_proxy() {
    let proxy = Proxies::from_text("socks5://127.0.0.1:1080").unwrap();
    assert_eq!(
        proxy,
        Proxies::URL(ProxyUrl::new(String::from("socks5://127.0.0.1:1080")))
    );
    assert_eq!(proxy.to_text(), "socks5://127.0.0.1:1080");
}

#[test]
fn ipv4_block_is_a_block() {
    let proxy = Proxies::from_text("10.0.0.0/24").unwrap();
    assert_eq!(
        proxy,
        Proxies::CIDR(block(IpAddress::V4(0x0a00_0000), 24))
    );
    assert_eq!(proxy.to_text(), "10.0.0.0/24");
}

#[test]
fn garbage_is_not_recognized() {
    assert_eq!(
        Proxies::from_text("garbage"),
        Err(UnrecognizedProxySelector {
            input: String::from("garbage")
        })
    );
}

#[test]
fn empty_text_is_not_recognized() {
    assert_eq!(
        Proxies::from_text(""),
        Err(UnrecognizedProxySelector {
            input: String::new()
        })
    );
}

#[test]
fn free_text_is_not_recognized() {
    let error = Proxies::from_text("not a proxy!!").unwrap_err();
    assert_eq!(error.input, "not a proxy!!");
    assert_eq!(error.message(), "failed to parse proxies");
}

#[test]
fn ipv6_address_is_an_interface() {
    let proxy = Proxies::from_text("::1").unwrap();
    assert_eq!(proxy, Proxies::Iface(IpAddress::V6(1)));
    assert_eq!(proxy.to_text(), "::1");
}

#[test]
fn ipv6_address_is_written_in_short_form() {
    let proxy = Proxies::from_text("2001:0db8:0000:0000:0000:0000:0000:0001").unwrap();
    assert_eq!(
        proxy,
        Proxies::Iface(IpAddress::V6(0x2001_0db8_0000_0000_0000_0000_0000_0001))
    );
    assert_eq!(proxy.to_text(), "2001:db8::1");
}

#[test]
fn ipv6_block_is_a_block() {
    let proxy = Proxies::from_text("2001:db8::/32").unwrap();
    assert_eq!(
        proxy,
        Proxies::CIDR(block(
            IpAddress::V6(0x2001_0db8_0000_0000_0000_0000_0000_0000),
            32
        ))
    );
    assert_eq!(proxy.to_text(), "2001:db8::/32");
}

#[test]
fn http_url_is_written_as_its_serialization() {
    let proxy = Proxies::from_text("HTTP://Example.COM:8080").unwrap();
    assert_eq!(
        proxy,
        Proxies::URL(ProxyUrl::new(String::from("http://example.com:8080/")))
    );
    assert_eq!(proxy.to_text(), "http://example.com:8080/");
}

#[test]
fn url_scheme_is_not_looked_at() {
    let proxy = Proxies::from_text("gopher://example.com").unwrap();
    assert_eq!(
        proxy,
        Proxies::URL(ProxyUrl::new(String::from("gopher://example.com")))
    );
}

#[test]
fn address_goes_before_url() {
    // `a::1` is an IPv6 address, and a URL of scheme `a` as well.
    assert_eq!(
        ProxyUrl::parse("a::1"),
        Some(ProxyUrl::new(String::from("a::1")))
    );
    let proxy = Proxies::from_text("a::1").unwrap();
    assert_eq!(
        proxy,
        Proxies::Iface(IpAddress::V6(0x000a_0000_0000_0000_0000_0000_0000_0001))
    );
    assert_eq!(proxy.to_text(), "a::1");
}

#[test]
fn address_goes_before_block() {
    // An address alone is the block of that address too.
    assert_eq!(
        IpBlock::parse("192.168.1.1"),
        Some(IpBlock::host(IpAddress::V4(0xc0a8_0101)))
    );
    assert_eq!(
        Proxies::from_text("192.168.1.1").unwrap(),
        Proxies::Iface(IpAddress::V4(0xc0a8_0101))
    );
}

#[test]
fn url_goes_before_block() {
    // `fe80::/64` is a block, and a URL of scheme `fe80` as well.
    assert_eq!(
        IpBlock::parse("fe80::/64"),
        Some(block(
            IpAddress::V6(0xfe80_0000_0000_0000_0000_0000_0000_0000),
            64
        ))
    );
    let proxy = Proxies::from_text("fe80::/64").unwrap();
    assert_eq!(
        proxy,
        Proxies::URL(ProxyUrl::new(String::from("fe80::/64")))
    );
    assert_eq!(proxy.to_text(), "fe80::/64");
}

#[test]
fn canonical_url_that_is_an_address_is_written_as_the_address() {
    // `a::0` is its own serialization as a URL, but as an address it is
    // written `a::`.
    assert_eq!(
        ProxyUrl::parse("a::0"),
        Some(ProxyUrl::new(String::from("a::0")))
    );
    let proxy = Proxies::from_text("a::0").unwrap();
    assert_eq!(
        proxy,
        Proxies::Iface(IpAddress::V6(0x000a_0000_0000_0000_0000_0000_0000_0000))
    );
    assert_eq!(proxy.to_text(), "a::");
}

#[test]
fn single_address_with_full_prefix_is_a_block() {
    let proxy = Proxies::from_text("10.0.0.1/32").unwrap();
    assert_eq!(
        proxy,
        Proxies::CIDR(IpBlock::host(IpAddress::V4(0x0a00_0001)))
    );
    assert_eq!(proxy.to_text(), "10.0.0.1");
}

#[test]
fn block_with_host_bits_is_not_recognized() {
    assert_eq!(IpBlock::parse("10.0.0.1/24"), None);
    assert!(Proxies::from_text("10.0.0.1/24").is_err());
}

#[test]
fn block_with_long_prefix_is_not_recognized() {
    assert_eq!(IpBlock::parse("10.0.0.0/33"), None);
    assert!(Proxies::from_text("10.0.0.0/33").is_err());
    assert!(Proxies::from_text("::/129").is_err());
}

#[test]
fn whole_address_space_is_a_block() {
    let proxy = Proxies::from_text("0.0.0.0/0").unwrap();
    assert_eq!(proxy, Proxies::CIDR(block(IpAddress::V4(0), 0)));
    assert_eq!(proxy.to_text(), "0.0.0.0/0");
    let proxy = Proxies::from_text("::/0").unwrap();
    assert_eq!(proxy, Proxies::CIDR(block(IpAddress::V6(0), 0)));
    assert_eq!(proxy.to_text(), "::/0");
}

#[test]
fn surrounding_space_is_not_an_address() {
    assert_eq!(IpAddress::parse(" 192.168.1.1"), None);
    assert_eq!(IpAddress::parse("192.168.1.1 "), None);
    assert!(Proxies::from_text(" 192.168.1.1").is_err());
}

#[test]
fn octet_out_of_range_is_not_an_address() {
    assert_eq!(IpAddress::parse("256.0.0.1"), None);
    assert_eq!(IpAddress::parse("1.2.3"), None);
    assert!(Proxies::from_text("256.0.0.1").is_err());
}

#[test]
fn address_parse_reads_both_families() {
    assert_eq!(
        IpAddress::parse("127.0.0.1"),
        Some(IpAddress::V4(0x7f00_0001))
    );
    assert_eq!(
        IpAddress::parse("255.255.255.255"),
        Some(IpAddress::V4(u32::MAX))
    );
    assert_eq!(
        IpAddress::parse("::ffff:1.2.3.4"),
        Some(IpAddress::V6(0xffff_0102_0304))
    );
    assert_eq!(IpAddress::parse("::"), Some(IpAddress::V6(0)));
}

#[test]
fn address_parse_refuses_a_block() {
    assert_eq!(IpAddress::parse("10.0.0.0/24"), None);
    assert_eq!(IpAddress::parse("10.0.0.1/32"), None);
    assert_eq!(IpAddress::parse("::1/128"), None);
}

#[test]
fn address_is_written_in_the_notation_of_its_family() {
    assert_eq!(IpAddress::V4(0x7f00_0001).to_text(), "127.0.0.1");
    assert_eq!(IpAddress::V4(0).to_text(), "0.0.0.0");
    assert_eq!(IpAddress::V6(1).to_text(), "::1");
    assert_eq!(IpAddress::V6(0xffff_0102_0304).to_text(), "::ffff:1.2.3.4");
    assert_eq!(
        IpAddress::V6(u128::MAX).to_text(),
        "ffff:ffff:ffff:ffff:ffff:ffff:ffff:ffff"
    );
}

#[test]
fn url_parse_keeps_the_serialization() {
    let url = ProxyUrl::parse("https://user:pw@Proxy.example:443/a/../b?x=1").unwrap();
    assert_eq!(url.as_str(), "https://user:pw@proxy.example/b?x=1");
    assert_eq!(ProxyUrl::parse("proxy.example"), None);
    assert_eq!(ProxyUrl::parse("//proxy.example"), None);
    assert_eq!(ProxyUrl::parse("1proxy.example:3128"), None);
}

#[test]
fn host_and_port_without_scheme_is_a_url() {
    // The host is taken for the scheme.
    let proxy = Proxies::from_text("proxy.example:3128").unwrap();
    assert_eq!(
        proxy,
        Proxies::URL(ProxyUrl::new(String::from("proxy.example:3128")))
    );
    assert!(Proxies::from_text("127.0.0.1:3128").is_err());
}

#[test]
fn has_slash_finds_the_character() {
    assert!(has_slash("10.0.0.0/24"));
    assert!(has_slash("/"));
    assert!(has_slash("\u{e9}t\u{e9}/"));
    assert!(!has_slash("10.0.0.0"));
    assert!(!has_slash(""));
    assert!(!has_slash("\u{2215}"));
}
