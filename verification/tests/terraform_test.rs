use mesa::terraform::csm;

#[test]
fn test_create() {
    let url = "url";
    let token = "token";
    let cert = "cert".as_bytes();
    let _group_name = "group_name".to_string();
    let group_name = Option::from(&_group_name);
    assert_eq!(
        csm::hsmgroup::create(token, url, cert, group_name),
        format!("{token}{url}")
    );
}
