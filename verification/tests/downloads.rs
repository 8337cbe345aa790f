use tempo::api_error::Error;
use tempo::auth::{ldap_user_filter, AuthError};
use tempo::downloads::{directory_document, import_directory, DownloadEntry};
use tempo::internal::{DirectoryRelation, InternalResourceType, ResourceType};
use tempo::jsonapi::{DocumentData, Related, Relation};

fn entry(name: &str, path: &str, size: Option<u64>) -> DownloadEntry {
    DownloadEntry { name: name.to_string(), path: path.to_string(), size }
}

#[test]
fn listing_splits_files_and_directories() {
    let entries = vec![
        entry("a.flac", "/dl/music/a.flac", Some(10)),
        entry("Disc 1", "/dl/music/Disc 1", None),
        entry("stray", "/elsewhere/stray", Some(3)),
        entry("b.flac", "/dl/music/b.flac", Some(20)),
    ];
    let doc = directory_document("/dl", "/dl/music", &entries).unwrap();
    let d = match doc.data {
        DocumentData::Single(d) => d,
        _ => panic!("expected one directory"),
    };
    assert_eq!(d.resource_type, ResourceType::Internal(InternalResourceType::Directory));
    assert_eq!(d.id, "music");
    assert_eq!(d.attributes.name, "music");
    assert_eq!(d.attributes.path, "music");
    let files: Vec<(String, String, u64)> = d.attributes.files.iter().map(|f| (f.name.clone(), f.path.clone(), f.size)).collect();
    assert_eq!(files, vec![("a.flac".to_string(), "music/a.flac".to_string(), 10), ("b.flac".to_string(), "music/b.flac".to_string(), 20)]);
    assert_eq!(d.relationships.len(), 1);
    assert_eq!(d.relationships[0].0, DirectoryRelation::Directories);
    match &d.relationships[0].1.data {
        Relation::Multi(links) => {
            assert_eq!(links.len(), 1);
            assert!(matches!(&links[0], Related::String(ri) if ri.id == "music%2FDisc%201"));
        }
        _ => panic!("expected a list of directories"),
    }
    assert_eq!(doc.included.len(), 1);
    assert_eq!(doc.included[0].id, "music%2FDisc%201");
    assert_eq!(doc.included[0].attributes.name, "Disc 1");
    assert_eq!(doc.included[0].attributes.path, "music/Disc 1");
    assert!(doc.links.is_empty());
}

#[test]
fn listing_the_downloads_root() {
    let doc = directory_document("/dl", "/dl", &vec![]).unwrap();
    match doc.data {
        DocumentData::Single(d) => {
            assert_eq!(d.id, "");
            assert_eq!(d.attributes.name, "dl");
            assert!(d.attributes.files.is_empty());
        }
        _ => panic!("expected one directory"),
    }
    assert!(directory_document("/dl", "/other", &vec![]).is_none());
}

#[test]
fn import_directory_decodes_the_id() {
    assert_eq!(import_directory("/dl", "music%2FDisc%201").unwrap().ok().unwrap(), "/dl/music/Disc 1");
    assert_eq!(import_directory("/dl", "plain").unwrap().ok().unwrap(), "/dl/plain");
    assert!(matches!(import_directory("/dl", "%2Fetc"), Some(Err(Error::BadRequest(Some(m)))) if m == "Path is not relative"));
    assert!(import_directory("/dl", "%FF").is_none());
}

#[test]
fn ldap_filter_names_the_user() {
    assert_eq!(ldap_user_filter("(uid={username})", "ann").ok().unwrap(), "(uid=ann)");
    assert_eq!(ldap_user_filter("(objectClass=person)", "ann").ok().unwrap(), "(objectClass=person)");
    assert!(matches!(ldap_user_filter("(uid={user})", "ann"), Err(AuthError::LdapFilterFormat(_))));
    assert!(matches!(ldap_user_filter("(uid={username)", "ann"), Err(AuthError::LdapFilterFormat(_))));
}

#[test]
fn hashing_algorithms_are_named() {
    use_algorithms();
}

fn use_algorithms() {
    let a = tempo::auth::HashPasswordAlgorithm::from_str("pbkdf2").ok().unwrap();
    assert_eq!(a, tempo::auth::HashPasswordAlgorithm::Pbkdf2);
    assert_eq!(a.to_string(), "pbkdf2");
    assert_eq!(tempo::auth::HashPasswordAlgorithm::Argon2.to_string(), "argon2");
    assert_eq!(tempo::auth::HashPasswordAlgorithm::from_str("md5").err().unwrap(), "Invalid hashing algorithm: md5");
}
