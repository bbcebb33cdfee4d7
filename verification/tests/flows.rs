use loap::api::{AnyOf2, ApiError, DownloadByBuildId, ReportBuild, RequestUpload};
use loap::auth::{AuthCheck, MaintainerRow};
use loap::download::{DownloadAction, DownloadEvent, DownloadFlow};
use loap::report::{ReportAction, ReportEvent, ReportFlow};
use loap::upload::{UploadAction, UploadEvent, UploadFlow};
use ssh_key::private::Ed25519Keypair;
use ssh_key::{HashAlg, LineEnding, PrivateKey};

fn key() -> PrivateKey {
    PrivateKey::from(Ed25519Keypair::from_seed(&[5; 32]))
}

fn sign(msg: &str) -> String {
    key()
        .sign("loap-upload-file", HashAlg::Sha512, msg.as_bytes())
        .unwrap()
        .to_pem(LineEnding::LF)
        .unwrap()
}

fn records() -> Option<MaintainerRow> {
    Some(MaintainerRow {
        maintainer_id: 7,
        pubkey: key().public_key().to_openssh().unwrap(),
        package_id: 11,
        package_maintainer: 7,
    })
}

fn report(signature: String) -> ReportBuild {
    ReportBuild {
        built_by: "kiedtl".to_string(),
        package: "zlib".to_string(),
        version: "1.3-1".to_string(),
        completed_in: 120,
        completed_at: 1700000000,
        object_path: "tarballs/zlib_1.3-1_x.tar.xz".to_string(),
        signature,
    }
}

#[test]
fn report_is_recorded() {
    let (mut flow, first) = ReportFlow::start(report(sign("kiedtl:zlib:1700000000")));
    match first {
        ReportAction::FetchRecords { maintainer, package } => {
            assert_eq!((maintainer.as_str(), package.as_str()), ("kiedtl", "zlib"))
        }
        _ => panic!("expected a lookup"),
    }
    match flow.step(ReportEvent::Records(Ok(records()))) {
        ReportAction::HeadObject { path } => assert_eq!(path, "tarballs/zlib_1.3-1_x.tar.xz"),
        _ => panic!("expected a head request"),
    }
    match flow.step(ReportEvent::ObjectSize(Some(4_294_967_296 + 5))) {
        ReportAction::InsertBuild(r) => {
            assert_eq!((r.built_by, r.package, r.size), (7, 11, 5));
            assert_eq!(r.version, "1.3-1");
            assert_eq!((r.completed_at, r.completed_in), (1700000000, 120));
            assert_eq!(r.object_path, "tarballs/zlib_1.3-1_x.tar.xz");
        }
        _ => panic!("expected an insertion"),
    }
    match flow.step(ReportEvent::Inserted(Ok(1))) {
        ReportAction::Respond(Ok(AnyOf2::A(s))) => assert_eq!(s, "Success"),
        _ => panic!("expected success"),
    }
}

#[test]
fn report_with_bad_signature_is_refused() {
    let (mut flow, _) = ReportFlow::start(report(sign("kiedtl:zlib:1")));
    match flow.step(ReportEvent::Records(Ok(records()))) {
        ReportAction::Respond(Ok(AnyOf2::B(ApiError::Auth(a)))) => {
            assert_eq!(a, AuthCheck::SignatureFailed)
        }
        _ => panic!("expected a refusal"),
    }
}

#[test]
fn report_of_unknown_pair_is_refused() {
    let (mut flow, _) = ReportFlow::start(report("x".to_string()));
    match flow.step(ReportEvent::Records(Ok(None))) {
        ReportAction::Respond(Ok(AnyOf2::B(ApiError::Auth(AuthCheck::NotKnown)))) => {}
        _ => panic!("expected NotKnown"),
    }
}

#[test]
fn report_database_error_is_passed_on() {
    let (mut flow, _) = ReportFlow::start(report("x".to_string()));
    match flow.step(ReportEvent::Records(Err("locked".to_string()))) {
        ReportAction::Respond(Err(e)) => assert_eq!(e, "locked"),
        _ => panic!("expected the error"),
    }
}

#[test]
fn report_of_missing_object() {
    let (mut flow, _) = ReportFlow::start(report(sign("kiedtl:zlib:1700000000")));
    flow.step(ReportEvent::Records(Ok(records())));
    match flow.step(ReportEvent::ObjectSize(None)) {
        ReportAction::Respond(Ok(AnyOf2::B(ApiError::ReportedObjectNotFound))) => {}
        _ => panic!("expected ReportedObjectNotFound"),
    }
}

#[test]
fn report_insert_of_other_than_one_row() {
    let (mut flow, _) = ReportFlow::start(report(sign("kiedtl:zlib:1700000000")));
    flow.step(ReportEvent::Records(Ok(records())));
    flow.step(ReportEvent::ObjectSize(Some(10)));
    match flow.step(ReportEvent::Inserted(Ok(0))) {
        ReportAction::Respond(Err(e)) => assert_eq!(e, "Internal database error"),
        _ => panic!("expected an error"),
    }
}

fn upload(signature: String) -> RequestUpload {
    RequestUpload {
        built_by: "kiedtl".to_string(),
        completed_at: 1700000000,
        package: "mesa".to_string(),
        version: "24.0-1".to_string(),
        signature,
    }
}

#[test]
fn upload_link_is_signed_for_fresh_path() {
    let (mut flow, first) = UploadFlow::start(upload(sign("kiedtl:mesa:1700000000")));
    assert!(matches!(first, UploadAction::FetchRecords { .. }));
    let path = match flow.step(UploadEvent::Records(Ok(records()))) {
        UploadAction::SignPut { path, expires_in_secs } => {
            assert_eq!(expires_in_secs, 420);
            path
        }
        _ => panic!("expected a signing request"),
    };
    assert!(path.starts_with("tarballs/mesa_24.0-1_"));
    assert!(path.ends_with(".tar.xz"));
    let id = &path["tarballs/mesa_24.0-1_".len()..path.len() - ".tar.xz".len()];
    assert_eq!(id.len(), 36);
    assert_eq!(id.as_bytes()[14], b'4');
    assert!(matches!(id.as_bytes()[19], b'8' | b'9' | b'a' | b'b'));
    assert!(id.chars().enumerate().all(|(i, c)| if [8, 13, 18, 23].contains(&i) {
        c == '-'
    } else {
        c.is_ascii_hexdigit() && !c.is_ascii_uppercase()
    }));
    match flow.step(UploadEvent::UrlSigned(Ok("https://s3/put".to_string()))) {
        UploadAction::Respond(Ok(AnyOf2::A(r))) => {
            assert_eq!(r.signed_url, "https://s3/put");
            assert_eq!(r.object_path, path);
        }
        _ => panic!("expected the link"),
    }
}

#[test]
fn upload_paths_differ() {
    let (mut a, _) = UploadFlow::start(upload(sign("kiedtl:mesa:1700000000")));
    let (mut b, _) = UploadFlow::start(upload(sign("kiedtl:mesa:1700000000")));
    let pa = match a.step(UploadEvent::Records(Ok(records()))) {
        UploadAction::SignPut { path, .. } => path,
        _ => panic!(),
    };
    let pb = match b.step(UploadEvent::Records(Ok(records()))) {
        UploadAction::SignPut { path, .. } => path,
        _ => panic!(),
    };
    assert_ne!(pa, pb);
}

#[test]
fn upload_with_malformed_signature_is_refused() {
    let (mut flow, _) = UploadFlow::start(upload("nonsense".to_string()));
    match flow.step(UploadEvent::Records(Ok(records()))) {
        UploadAction::Respond(Ok(AnyOf2::B(ApiError::Auth(AuthCheck::SignatureMalformed)))) => {}
        _ => panic!("expected SignatureMalformed"),
    }
}

#[test]
fn upload_store_error_is_passed_on() {
    let (mut flow, _) = UploadFlow::start(upload(sign("kiedtl:mesa:1700000000")));
    flow.step(UploadEvent::Records(Ok(records())));
    match flow.step(UploadEvent::UrlSigned(Err("no credentials".to_string()))) {
        UploadAction::Respond(Err(e)) => assert_eq!(e, "no credentials"),
        _ => panic!("expected the error"),
    }
}

#[test]
fn download_redirects_to_signed_link() {
    let (mut flow, first) = DownloadFlow::start(&DownloadByBuildId { id: 12 });
    assert!(matches!(first, DownloadAction::FetchPath { id: 12 }));
    match flow.step(DownloadEvent::PathFound(Ok(Some("tarballs/a.tar.xz".to_string())))) {
        DownloadAction::SignGet { path, expires_in_secs } => {
            assert_eq!((path.as_str(), expires_in_secs), ("tarballs/a.tar.xz", 180))
        }
        _ => panic!("expected a signing request"),
    }
    match flow.step(DownloadEvent::UrlSigned(Ok("https://s3/get".to_string()))) {
        DownloadAction::CountDownload { id } => assert_eq!(id, 12),
        _ => panic!("expected the count"),
    }
    match flow.step(DownloadEvent::Counted(Ok(()))) {
        DownloadAction::Respond(Ok(AnyOf2::A(url))) => assert_eq!(url, "https://s3/get"),
        _ => panic!("expected a redirect"),
    }
}

#[test]
fn download_of_unknown_build() {
    let (mut flow, _) = DownloadFlow::start(&DownloadByBuildId { id: 1 });
    match flow.step(DownloadEvent::PathFound(Ok(None))) {
        DownloadAction::Respond(Ok(AnyOf2::B(ApiError::NotFound))) => {}
        _ => panic!("expected NotFound"),
    }
}

#[test]
fn download_count_error_is_passed_on() {
    let (mut flow, _) = DownloadFlow::start(&DownloadByBuildId { id: 1 });
    flow.step(DownloadEvent::PathFound(Ok(Some("p".to_string()))));
    flow.step(DownloadEvent::UrlSigned(Ok("u".to_string())));
    match flow.step(DownloadEvent::Counted(Err("busy".to_string()))) {
        DownloadAction::Respond(Err(e)) => assert_eq!(e, "busy"),
        _ => panic!("expected the error"),
    }
}

#[test]
fn flows_say_what_they_wait_for() {
    let (flow, _) = DownloadFlow::start(&DownloadByBuildId { id: 1 });
    assert!(flow.awaits(&DownloadEvent::PathFound(Ok(None))));
    assert!(!flow.awaits(&DownloadEvent::Counted(Ok(()))));
    let (flow, _) = ReportFlow::start(report("x".to_string()));
    assert!(flow.awaits(&ReportEvent::Records(Ok(None))));
    assert!(!flow.awaits(&ReportEvent::ObjectSize(None)));
    let (flow, _) = UploadFlow::start(upload("x".to_string()));
    assert!(flow.awaits(&UploadEvent::Records(Ok(None))));
    assert!(!flow.awaits(&UploadEvent::UrlSigned(Ok(String::new()))));
}
