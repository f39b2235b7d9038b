use s3_signer::s3_configuration::UnknownRegion;
use s3_signer::S3Configuration;

#[test]
fn new_keeps_what_it_is_given() {
    let configuration = S3Configuration::new("key", "secret", "eu-central-1").unwrap();
    assert_eq!(configuration.access_key_id(), "key");
    assert_eq!(configuration.secret_access_key(), "secret");
    assert_eq!(configuration.region(), "eu-central-1");
    assert_eq!(configuration.endpoint(), &None);
}

#[test]
fn new_takes_the_names_that_the_signer_knows() {
    for region in [
        "us-east-1",
        "US-EAST-1",
        "useast1",
        "UsEast1",
        "ap-southeast-3",
        "cn-northwest-1",
        "af-south-1",
    ] {
        let configuration = S3Configuration::new("key", "secret", region).unwrap();
        assert_eq!(configuration.region(), region);
    }
}

#[test]
fn new_refuses_any_other_name() {
    for region in ["", "us-east", "mars-1", "us east 1", "http://localhost"] {
        assert_eq!(
            S3Configuration::new("key", "secret", region).err(),
            Some(UnknownRegion {
                name: region.to_string()
            })
        );
    }
}

#[test]
fn new_with_hostname_takes_any_label() {
    let configuration =
        S3Configuration::new_with_hostname("key", "secret", "garage", "http://localhost:3900");
    assert_eq!(configuration.access_key_id(), "key");
    assert_eq!(configuration.secret_access_key(), "secret");
    assert_eq!(configuration.region(), "garage");
    assert_eq!(
        configuration.endpoint(),
        &Some("http://localhost:3900".to_string())
    );
}

#[test]
fn clone_is_the_same_configuration() {
    let configuration = S3Configuration::new_with_hostname("key", "secret", "label", "host");
    let copy = configuration.clone();
    assert_eq!(copy.access_key_id(), configuration.access_key_id());
    assert_eq!(copy.secret_access_key(), configuration.secret_access_key());
    assert_eq!(copy.region(), configuration.region());
    assert_eq!(copy.endpoint(), configuration.endpoint());
}
