//! Keys, creators, timestamps and the small value types.

use creator_authority::creator_authority::{
    CreatorAuthorityAuthKind, CreatorAuthorityRecord, CreatorAuthoritySecret,
    CreatorAuthorityValidity, CreatorConnectFlowId, GrantPopKeyId,
};
use creator_authority::error::ApplicationError;
use creator_authority::keys::{creator_from_pubky_public_key_z32, CreatorPubky, PublicKey};
use creator_authority::timestamp::Timestamp;

const CREATOR: &str = "pubkytkrq8zmwb8a3m9k15csu3q17qmfgqnp9dskbrg9uq1rydpyxp7qy";

#[test]
fn creator_identity_is_the_prefixed_key() {
    let creator = CreatorPubky::parse(CREATOR).unwrap();
    assert_eq!(creator.as_str(), CREATOR);
    assert!(creator.is_same(&creator.clone()));
    assert_eq!(creator.debug_text(), format!("CreatorPubky({CREATOR:?})"));
    assert!(CreatorPubky::parse(&CREATOR[5..]).is_none());
    assert!(CreatorPubky::parse("pubky").is_none());
    assert!(CreatorPubky::parse("").is_none());
    assert!(CreatorPubky::parse(&format!("{CREATOR}y")).is_none());
}

#[test]
fn public_key_reads_what_it_prints() {
    let key = pubky::Keypair::from_secret(&[9; 32]).public_key();
    let read = PublicKey::try_from_z32(&key.z32()).unwrap();
    assert_eq!(read.z32(), key.z32());
    assert_eq!(read.z32().len(), 52);
    assert!(read.is_same(&read.clone()));
    let other = pubky::Keypair::from_secret(&[8; 32]).public_key();
    assert!(!read.is_same(&PublicKey::try_from_z32(&other.z32()).unwrap()));
    assert!(PublicKey::try_from_z32("not a key").is_none());
    assert!(PublicKey::try_from_z32("").is_none());
    assert_eq!(
        creator_from_pubky_public_key_z32(&key.z32()).unwrap().as_str(),
        format!("pubky{}", key.z32())
    );
}

#[test]
fn public_key_prints_its_own_spelling_for_another_one() {
    let key = pubky::Keypair::from_secret(&[9; 32]).public_key();
    let uri = format!("pk:{}", key.z32());
    assert_eq!(PublicKey::try_from_z32(&uri).unwrap().z32(), key.z32());
    assert_eq!(
        creator_from_pubky_public_key_z32(&uri),
        Err(ApplicationError::CreatorAuthoritySecret {
            message: "invalid creator public key".to_owned()
        })
    );
}

#[test]
fn timestamps_reach_from_the_first_to_the_last_second_of_the_calendar() {
    for second in [
        i64::MIN,
        -377_705_116_801,
        -377_705_116_800,
        -1,
        0,
        1_700_000_000,
        253_402_300_799,
        253_402_300_800,
        i64::MAX,
    ] {
        let at = Timestamp::from_unix_timestamp(second);
        let expected = time::OffsetDateTime::from_unix_timestamp(second).ok();
        assert_eq!(
            at.map(|at| at.unix_nanos()),
            expected.map(|at| at.unix_timestamp_nanos())
        );
        let nanos = i128::from(second) * 1_000_000_000;
        for nanos in [nanos - 1, nanos, nanos + 1] {
            assert_eq!(
                Timestamp::from_unix_nanos(nanos).map(|at| at.unix_nanos()),
                time::OffsetDateTime::from_unix_timestamp_nanos(nanos)
                    .ok()
                    .map(|at| at.unix_timestamp_nanos())
            );
        }
    }
    let at = Timestamp::from_unix_timestamp(10).unwrap();
    let later = at.plus_seconds(300);
    assert_eq!(later.unix_nanos(), 310_000_000_000);
    assert!(later.is_after(at));
    assert!(!at.is_after(at));
}

#[test]
fn timestamps_keep_their_offset_and_compare_without_it() {
    let nanos = 1_700_000_000_000_000_000;
    let utc = Timestamp::from_unix_nanos(nanos).unwrap();
    let east = Timestamp::from_unix_nanos_at_offset(nanos, 19_800).unwrap();
    assert_eq!(utc.offset_seconds(), 0);
    assert_eq!(east.offset_seconds(), 19_800);
    assert_eq!(east.local_nanos(), nanos + 19_800_000_000_000);
    assert!(utc == east);
    assert!(!utc.is_after(east) && !east.is_after(utc));
    assert_eq!(east.plus_seconds(300).offset_seconds(), 19_800);
    assert!(east.plus_seconds(300) == utc.plus_seconds(300));
    assert!(east.plus_seconds(300) != east);

    let last = 253_402_300_799_999_999_999;
    for (nanos, offset) in [
        (nanos, -93_600),
        (nanos, -93_599),
        (nanos, 93_599),
        (nanos, 93_600),
        (nanos, i32::MIN),
        (last, 1),
        (last + 1_000_000_000, -1),
        (last + 1_000_000_001, -1),
        (i128::MAX, 0),
    ] {
        let expected = time::UtcOffset::from_whole_seconds(offset)
            .ok()
            .filter(|offset| {
                let local = nanos.saturating_add(i128::from(offset.whole_seconds()) * 1_000_000_000);
                time::OffsetDateTime::from_unix_timestamp_nanos(local).is_ok()
            });
        let at = Timestamp::from_unix_nanos_at_offset(nanos, offset);
        assert_eq!(at.is_some(), expected.is_some(), "{nanos} {offset}");
        assert_eq!(
            at.map(|at| at.unix_nanos()),
            expected.map(|_| nanos),
            "{nanos} {offset}"
        );
    }
}

#[test]
fn auth_kinds_read_back_what_they_are_stored_as() {
    for (kind, text) in [
        (CreatorAuthorityAuthKind::LegacyCookie, "legacy_cookie"),
        (CreatorAuthorityAuthKind::Grant, "grant"),
    ] {
        assert_eq!(kind.as_str(), text);
        assert_eq!(CreatorAuthorityAuthKind::from_str(text), Ok(kind));
        assert_eq!(text.parse(), Ok(kind));
    }
    assert_eq!(
        "cookie".parse::<CreatorAuthorityAuthKind>(),
        Err(ApplicationError::InvalidCreatorAuthorityAuthKind {
            auth_kind: "cookie".to_owned()
        })
    );
    assert_eq!(
        CreatorAuthorityAuthKind::from_str("Grant"),
        Err(ApplicationError::InvalidCreatorAuthorityAuthKind {
            auth_kind: "Grant".to_owned()
        })
    );
}

#[test]
fn key_ids_name_their_connect_flow() {
    let key_id = GrantPopKeyId::for_connect_flow(&CreatorConnectFlowId::new("flow-123"));
    assert_eq!(key_id.as_str(), "locks-connect-v1.flow-123");
    assert_eq!(key_id, GrantPopKeyId::new("locks-connect-v1.flow-123"));
    assert_ne!(
        key_id,
        GrantPopKeyId::for_connect_flow(&CreatorConnectFlowId::new("flow-124"))
    );
}

#[test]
fn validity_is_the_record_without_its_secret_and_ends_with_refusal_or_expiry() {
    let at = |second: i64| Timestamp::from_unix_timestamp(second).unwrap();
    let record = CreatorAuthorityRecord {
        creator: CreatorPubky::parse(CREATOR).unwrap(),
        auth_kind: CreatorAuthorityAuthKind::Grant,
        granted_scopes: vec!["/pub/locks.app/:rw".to_owned()],
        secret: CreatorAuthoritySecret::new("creator-authority-secret"),
        session_expires_at: Some(at(100)),
        last_revalidated_at: Some(at(50)),
    };
    let validity = CreatorAuthorityValidity::from_record(&record, None);
    assert_eq!(validity.creator, record.creator);
    assert_eq!(validity.auth_kind, record.auth_kind);
    assert_eq!(validity.granted_scopes, record.granted_scopes);
    assert!(validity.session_expires_at == Some(at(100)));
    assert!(validity.last_revalidated_at == Some(at(50)));
    assert!(validity.refused_at == None);
    assert!(validity.is_usable_at(at(99)));
    assert!(!validity.is_usable_at(at(100)));
    assert!(!validity.is_usable_at(at(101)));
    let refused = CreatorAuthorityValidity::from_record(&record, Some(at(60)));
    assert!(!refused.is_usable_at(at(99)));
}
