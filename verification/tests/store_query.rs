use crx_dl::{Architecture, ChromeCRXQuery, OperatingSystem, ProductId, UPDATE_SERVICE_URL};

fn pair(name: &str, value: &str) -> (String, String) {
    (name.to_string(), value.to_string())
}

#[test]
fn default_query_is_for_chrome_on_windows() {
    let query = ChromeCRXQuery::default();
    assert_eq!(query.response, "redirect");
    assert_eq!(query.os, OperatingSystem::Windows);
    assert_eq!(query.arch, Architecture::AMD64);
    assert_eq!(query.os_arch, Architecture::AMD64);
    assert_eq!(query.nacl_arch, Architecture::AMD64);
    assert_eq!(query.prod, ProductId::ChromeCRX);
    assert_eq!(query.prodchannel, "unknown");
    assert_eq!(query.prodversion, "9999.0.9999.0");
    assert_eq!(query.acceptformat, "crx2,crx3");
    assert_eq!(query.x, "");
}

#[test]
fn default_query_as_pairs() {
    assert_eq!(
        ChromeCRXQuery::default().to_vec(),
        vec![
            pair("response", "redirect"),
            pair("os", "win"),
            pair("arch", "x86-64"),
            pair("os_arch", "x86-64"),
            pair("nacl_arch", "x86-64"),
            pair("prod", "chromecrx"),
            pair("prodchannel", "unknown"),
            pair("prodversion", "9999.0.9999.0"),
            pair("acceptformat", "crx2,crx3"),
            pair("x", "id=&uc"),
        ]
    );
}

#[test]
fn extension_id_goes_between_id_and_uc() {
    let mut query = ChromeCRXQuery::default();
    query.x = "adbacgifemdbhdkfppmeilbgppmhaobf";
    let pairs = query.to_vec();
    assert_eq!(pairs.len(), 10);
    assert_eq!(pairs[9], pair("x", "id=adbacgifemdbhdkfppmeilbgppmhaobf&uc"));
    assert_eq!(pairs[..9], ChromeCRXQuery::default().to_vec()[..9]);
}

#[test]
fn every_field_goes_into_its_pair() {
    let query = ChromeCRXQuery {
        response: "updatecheck",
        os: OperatingSystem::ChromeOS,
        arch: Architecture::ARM,
        os_arch: Architecture::Intel32,
        nacl_arch: Architecture::AMD64,
        prod: ProductId::ChromiumCRX,
        prodchannel: "stable",
        prodversion: "120.0.6099.71",
        acceptformat: "crx3",
        x: "an id",
    };
    assert_eq!(
        query.to_vec(),
        vec![
            pair("response", "updatecheck"),
            pair("os", "cros"),
            pair("arch", "arm"),
            pair("os_arch", "x86-32"),
            pair("nacl_arch", "x86-64"),
            pair("prod", "chromiumcrx"),
            pair("prodchannel", "stable"),
            pair("prodversion", "120.0.6099.71"),
            pair("acceptformat", "crx3"),
            pair("x", "id=an id&uc"),
        ]
    );
}

#[test]
fn values_are_not_escaped() {
    let mut query = ChromeCRXQuery::default();
    query.x = "a&b=c";
    query.prodchannel = "ünknown";
    let pairs = query.to_vec();
    assert_eq!(pairs[9], pair("x", "id=a&b=c&uc"));
    assert_eq!(pairs[6], pair("prodchannel", "ünknown"));
}

#[test]
fn product_words() {
    assert_eq!(ProductId::ChromeCRX.as_str(), "chromecrx");
    assert_eq!(ProductId::ChromiumCRX.as_str(), "chromiumcrx");
}

#[test]
fn operating_system_words() {
    assert_eq!(OperatingSystem::Windows.as_str(), "win");
    assert_eq!(OperatingSystem::Linux.as_str(), "linux");
    assert_eq!(OperatingSystem::MacOS.as_str(), "mac");
    assert_eq!(OperatingSystem::ChromeOS.as_str(), "cros");
    assert_eq!(OperatingSystem::BSD.as_str(), "openbsd");
    assert_eq!(OperatingSystem::Android.as_str(), "android");
}

#[test]
fn architecture_words() {
    assert_eq!(Architecture::ARM.as_str(), "arm");
    assert_eq!(Architecture::Intel32.as_str(), "x86-32");
    assert_eq!(Architecture::AMD64.as_str(), "x86-64");
}

#[test]
fn words_are_read_back() {
    for product in [ProductId::ChromeCRX, ProductId::ChromiumCRX] {
        assert_eq!(ProductId::from_name(product.as_str()), Some(product));
    }
    for os in [
        OperatingSystem::Windows,
        OperatingSystem::Linux,
        OperatingSystem::MacOS,
        OperatingSystem::ChromeOS,
        OperatingSystem::BSD,
        OperatingSystem::Android,
    ] {
        assert_eq!(OperatingSystem::from_name(os.as_str()), Some(os));
    }
    for arch in [Architecture::ARM, Architecture::Intel32, Architecture::AMD64] {
        assert_eq!(Architecture::from_name(arch.as_str()), Some(arch));
    }
}

#[test]
fn other_words_are_not_read() {
    for word in ["", "Win", "WIN", "windows", "win ", " win", "x86", "chrome", "ChromeCRX", "bsd"] {
        assert_eq!(ProductId::from_name(word), None);
        assert_eq!(OperatingSystem::from_name(word), None);
        assert_eq!(Architecture::from_name(word), None);
    }
    assert_eq!(OperatingSystem::from_name("arm"), None);
    assert_eq!(Architecture::from_name("linux"), None);
    assert_eq!(ProductId::from_name("mac"), None);
    assert_eq!(Architecture::from_name("x86_64"), None);
}

#[test]
fn update_service_address() {
    assert_eq!(UPDATE_SERVICE_URL, "https://clients2.google.com/service/update2/crx");
}
