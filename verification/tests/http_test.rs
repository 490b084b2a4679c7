use binggpt::http::{
    cookie_header, fixed_header_list, forwarded_ip, FIXED_COOKIE, get_header, get_path, get_random_forwarded_ip, header_list,
    Cookie, PathError,
};

#[test]
fn test_get_random_forwarded_ip() {
    for _ in 0..10000 {
        let ip = get_random_forwarded_ip();
        let fields = ip.split('.').collect::<Vec<&str>>();
        assert_eq!(fields.len(), 4);
        assert_eq!(fields[0], "13");
        assert!(
            fields[1].parse::<u8>().unwrap() >= 104 && fields[1].parse::<u8>().unwrap() < 107
        );
        assert!(
            fields[2].parse::<u8>().unwrap() >= 1 && fields[2].parse::<u8>().unwrap() < 255
        );
        assert!(
            fields[3].parse::<u8>().unwrap() >= 1 && fields[3].parse::<u8>().unwrap() < 255
        );
    }
}

#[test]
fn forwarded_ip_writes_the_four_numbers() {
    assert_eq!(forwarded_ip(104, 1, 254), "13.104.1.254");
    assert_eq!(forwarded_ip(106, 10, 9), "13.106.10.9");
}

#[test]
fn cookie_header_joins_pairs() {
    let cookies = vec![
        Cookie { name: "_U".to_string(), value: "abc".to_string() },
        Cookie { name: "SRCHD".to_string(), value: "AF=NOFORM".to_string() },
        Cookie { name: "x".to_string(), value: "".to_string() },
    ];
    assert_eq!(cookie_header(&cookies), "_U=abc; SRCHD=AF=NOFORM; x=");
}

#[test]
fn cookie_header_of_one_and_of_none() {
    assert_eq!(cookie_header(&vec![]), "");
    let one = vec![Cookie { name: "a".to_string(), value: "b".to_string() }];
    assert_eq!(cookie_header(&one), "a=b");
}

#[test]
fn get_path_expands_home() {
    assert_eq!(get_path("~/.config/bing-cookies.json", "/home/u").unwrap(), "/home/u/.config/bing-cookies.json");
    assert_eq!(get_path("~~/x", "/h").unwrap(), "/h/x");
    assert_eq!(get_path("~", "/h").unwrap(), "/h");
}

#[test]
fn get_path_keeps_other_paths() {
    assert_eq!(get_path("/etc/cookies.json", "").unwrap(), "/etc/cookies.json");
    assert_eq!(get_path("a~b", "/h").unwrap(), "a~b");
    assert_eq!(get_path("", "").unwrap(), "");
}

#[test]
fn get_path_without_home_fails() {
    let e = get_path("~/.config", "").unwrap_err();
    assert_eq!(e, PathError::NoHomeDirectory);
    assert_eq!(e.message(), "Cannot find user home directory, please specify absolute path");
}

#[test]
fn header_list_in_order() {
    let h = header_list("_U=1", "id-1", "13.104.1.1");
    assert_eq!(h.len(), 21);
    assert_eq!(h[0], ("accept".to_string(), "application/json".to_string()));
    assert_eq!(h[3].1, r#""Not_A Brand";v="99", "Microsoft Edge";v="109", "Chromium";v="109""#);
    assert_eq!(h[7].1, r#""Not_A Brand";v="99.0.0.0", "Microsoft Edge";v="109.0.1518.78", "Chromium";v="109.0.5414.120""#);
    assert_eq!(h[9], ("sec-ch-ua-model".to_string(), "".to_string()));
    assert_eq!(h[15], ("x-ms-client-request-id".to_string(), "id-1".to_string()));
    assert_eq!(h[19], ("x-forwarded-for".to_string(), "13.104.1.1".to_string()));
    assert_eq!(h[20], ("Cookie".to_string(), "_U=1".to_string()));
}

#[test]
fn get_header_has_fresh_id_and_address() {
    let h = get_header("k=v");
    assert_eq!(h.len(), 21);
    let id = &h[15].1;
    assert_eq!(id.len(), 36);
    let bytes: Vec<char> = id.chars().collect();
    for (i, c) in bytes.iter().enumerate() {
        if i == 8 || i == 13 || i == 18 || i == 23 {
            assert_eq!(*c, '-');
        } else {
            assert!(c.is_ascii_hexdigit() && !c.is_ascii_uppercase());
        }
    }
    assert_eq!(bytes[14], '4');
    assert!(matches!(bytes[19], '8' | '9' | 'a' | 'b'));
    assert!(h[19].1.starts_with("13.10"));
    assert_eq!(h[20].1, "k=v");
}

#[test]
fn fixed_header_list_in_order() {
    let h = fixed_header_list();
    assert_eq!(h.len(), 6);
    assert_eq!(h[0].0, "user-agent");
    assert_eq!(h[1], ("origin".to_string(), "https://www.bing.com".to_string()));
    assert_eq!(h[2], ("referer".to_string(), "https://www.bing.com/".to_string()));
    assert_eq!(h[3].1, r#""Chromium";v="110", "Not A(Brand";v="24", "Microsoft Edge";v="110""#);
    assert_eq!(h[4], ("sec-ch-ua-platform".to_string(), "Windows".to_string()));
    assert_eq!(h[5].0, "Cookie");
    assert_eq!(h[5].1, FIXED_COOKIE);
    assert!(FIXED_COOKIE.starts_with("_U="));
}
