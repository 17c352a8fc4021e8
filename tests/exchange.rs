use rsasl_core::anonymous::{Anonymous, ParseError};
use rsasl_core::client::{AnonymousClient, PlainClient};
use rsasl_core::digest_md5::{
    digest_md5_free_challenge, digest_md5_free_finish, digest_md5_free_response, DigestMd5Challenge,
    DigestMd5Finish, DigestMd5Response,
};
use rsasl_core::init::{anonymous_mechanism, gsasl_init, plain_mechanism};
use rsasl_core::mechname::{check_mechname, MechnameError};
use rsasl_core::plain::{parse_plain, split_plain, Plain, PlainError};
use rsasl_core::property::{Credentials, Demand, Property};
use rsasl_core::registry::{
    test_client_session, MechKind, Mechanism, RegistrationError, Registry, SaslConfig,
};
use rsasl_core::session::{ErrorKind, Instance, SessionError, SessionState, Side, Step};
use rsasl_core::validate::{FixedValidator, Verdict};

fn cfg() -> SaslConfig {
    SaslConfig { channel_binding: false }
}

fn mech(name: &str, priority: u32) -> Mechanism {
    Mechanism {
        name: name.as_bytes().to_vec(),
        priority,
        client: true,
        server: true,
        needs_channel_binding: false,
        kind: MechKind::Plain,
    }
}

fn accept() -> FixedValidator {
    FixedValidator::new(Verdict::Accepted)
}

fn creds() -> Credentials {
    Credentials {
        authid: Some("alice".to_string()),
        authzid: None,
        password: Some(b"secret".to_vec()),
        anonymous_token: Some("guest".to_string()),
    }
}

#[test]
fn offer_lists_plain_before_anonymous() {
    let mut reg = Registry::new();
    assert_eq!(reg.register(anonymous_mechanism()), Ok(()));
    assert_eq!(reg.register(plain_mechanism()), Ok(()));
    let names = reg.offer(Side::Server, &cfg());
    assert_eq!(names, vec![b"PLAIN".to_vec(), b"ANONYMOUS".to_vec()]);
}

#[test]
fn init_registers_builtins() {
    let reg = gsasl_init().unwrap();
    assert_eq!(reg.mechanisms.len(), 2);
    assert_eq!(reg.offer(Side::Client, &cfg()), vec![b"PLAIN".to_vec(), b"ANONYMOUS".to_vec()]);
}

#[test]
fn offer_ties_keep_registration_order() {
    let mut reg = Registry::new();
    reg.register(mech("B", 5)).unwrap();
    reg.register(mech("A", 7)).unwrap();
    reg.register(mech("C", 5)).unwrap();
    let mut cb = mech("D-PLUS", 9);
    cb.needs_channel_binding = true;
    reg.register(cb).unwrap();
    let mut server_only = mech("E", 8);
    server_only.client = false;
    reg.register(server_only).unwrap();
    assert_eq!(
        reg.offer(Side::Client, &cfg()),
        vec![b"A".to_vec(), b"B".to_vec(), b"C".to_vec()]
    );
    assert_eq!(
        reg.offer(Side::Server, &SaslConfig { channel_binding: true }),
        vec![b"D-PLUS".to_vec(), b"E".to_vec(), b"A".to_vec(), b"B".to_vec(), b"C".to_vec()]
    );
}

#[test]
fn plain_end_to_end() {
    let reg = gsasl_init().unwrap();
    let cands = vec![b"PLAIN".to_vec()];
    let client = reg.select(Side::Client, Some(cands.as_slice()), &cfg()).unwrap();
    assert_eq!(client.name, b"PLAIN".to_vec());
    assert_eq!(client.mechanism, Instance::PlainClient(PlainClient));

    let mut server = reg.select(Side::Server, Some(cands.as_slice()), &cfg()).unwrap();
    let mut v = accept();
    let r = server.step(Some(b"\0alice\0secret"), &Credentials::empty(), &mut v);
    assert_eq!(r, Ok(Step::Done(None)));
    assert_eq!(server.state, SessionState::Done);
    assert_eq!(v.calls, 1);

    let mut server = reg.select(Side::Server, Some(cands.as_slice()), &cfg()).unwrap();
    let r = server.step(Some(b"\0alice\0secret\0extra"), &Credentials::empty(), &mut v);
    assert_eq!(r, Err(SessionError::Plain(PlainError::BadFormat)));
    assert_eq!(server.state, SessionState::Failed);
    assert_eq!(v.calls, 1);
}

#[test]
fn anonymous_end_to_end() {
    let reg = gsasl_init().unwrap();
    let cands = vec![b"ANONYMOUS".to_vec()];
    let mut server = reg.select(Side::Server, Some(cands.as_slice()), &cfg()).unwrap();
    let mut v = accept();
    assert_eq!(
        server.step(Some(b"guest"), &Credentials::empty(), &mut v),
        Ok(Step::Done(None))
    );
    let mut server = reg.select(Side::Server, Some(cands.as_slice()), &cfg()).unwrap();
    let long = "a".repeat(256);
    assert_eq!(
        server.step(Some(long.as_bytes()), &Credentials::empty(), &mut v),
        Err(SessionError::Anonymous(ParseError))
    );
    assert_eq!(v.calls, 1);
}

#[test]
fn anonymous_token_lengths() {
    let mut v = accept();
    let mut m = Anonymous;
    assert_eq!(m.step(None, &mut v), Ok(Step::NeedsMore(None)));
    let max = "é".repeat(255);
    assert_eq!(max.len(), 510);
    assert_eq!(m.step(Some(max.as_bytes()), &mut v), Ok(Step::Done(None)));
    let four = "\u{1F600}".repeat(255);
    assert_eq!(four.len(), 1020);
    assert_eq!(m.step(Some(four.as_bytes()), &mut v), Ok(Step::Done(None)));
    let over = "é".repeat(256);
    assert_eq!(m.step(Some(over.as_bytes()), &mut v), Err(SessionError::Anonymous(ParseError)));
    assert_eq!(m.step(Some(b""), &mut v), Err(SessionError::Anonymous(ParseError)));
    assert_eq!(m.step(Some(&[0xff, 0xfe]), &mut v), Err(SessionError::Anonymous(ParseError)));
    assert_eq!(v.calls, 2);
    assert_eq!(ParseError.kind(), ErrorKind::Parse);
}

#[test]
fn anonymous_verdicts() {
    let mut m = Anonymous;
    let mut reject = FixedValidator::new(Verdict::Rejected);
    assert_eq!(m.step(Some(b"guest"), &mut reject), Err(SessionError::Rejected));
    let mut unsupported = FixedValidator::new(Verdict::Unsupported);
    let r = m.step(Some(b"guest"), &mut unsupported);
    assert_eq!(r, Err(SessionError::ValidationUnsupported));
    assert_eq!(r.unwrap_err().kind(), ErrorKind::Configuration);
}

#[test]
fn plain_separator_counts() {
    let mut v = accept();
    let mut m = Plain;
    for input in [&b"alice"[..], b"alice\0secret", b"\0a\0b\0c", b"\0\0\0\0"] {
        assert_eq!(m.step(Some(input), &mut v), Err(SessionError::Plain(PlainError::BadFormat)));
    }
    assert_eq!(v.calls, 0);
    assert_eq!(m.step(Some(b""), &mut v), Ok(Step::NeedsMore(None)));
    assert_eq!(m.step(None, &mut v), Ok(Step::NeedsMore(None)));
    assert_eq!(m.step(Some(b"\0\0"), &mut v), Ok(Step::Done(None)));
    assert_eq!(v.calls, 1);
}

#[test]
fn plain_empty_authzid_is_absent() {
    let p = parse_plain(b"\0alice\0secret").unwrap();
    assert_eq!(p.authzid, None);
    assert_eq!(p.authcid, "alice");
    assert_eq!(p.password, b"secret".to_vec());
    let p = parse_plain(b"admin\0alice\0secret").unwrap();
    assert_eq!(p.authzid, Some("admin".to_string()));
}

#[test]
fn plain_field_errors() {
    assert_eq!(parse_plain(b"\xff\0alice\0pw").unwrap_err(), PlainError::BadAuthzid);
    assert_eq!(parse_plain(b"\0\xff\0pw").unwrap_err(), PlainError::BadAuthcid);
    assert_eq!(parse_plain(b"\0alice\0\xff").unwrap_err(), PlainError::BadPassword);
    assert_eq!(parse_plain(b"\0alice\0pw\x07").unwrap_err(), PlainError::Saslprep);
    assert_eq!(PlainError::Saslprep.kind(), ErrorKind::Parse);
    let mut reject = FixedValidator::new(Verdict::Rejected);
    assert_eq!(Plain.step(Some(b"\0alice\0pw"), &mut reject), Err(SessionError::Rejected));
}

#[test]
fn plain_saslprep_maps_spaces() {
    let p = parse_plain("\0a\u{00A0}b\0p\u{2003}w".as_bytes()).unwrap();
    assert_eq!(p.authcid, "a b");
    assert_eq!(p.password, b"p w".to_vec());
    let p = parse_plain("\0\u{FB01}\0x".as_bytes()).unwrap();
    assert_eq!(p.authcid, "fi");
}

#[test]
fn split_plain_fields() {
    let (z, c, p) = split_plain(b"z\0cc\0ppp").unwrap();
    assert_eq!((z, c, p), (&b"z"[..], &b"cc"[..], &b"ppp"[..]));
    assert!(split_plain(b"z\0c").is_none());
}

#[test]
fn finished_session_refuses_steps() {
    let reg = gsasl_init().unwrap();
    let mut v = accept();
    let mut s = reg.select(Side::Server, None, &cfg()).unwrap();
    assert_eq!(s.mechanism, Instance::PlainServer(Plain));
    assert_eq!(s.step(None, &Credentials::empty(), &mut v), Ok(Step::NeedsMore(None)));
    assert_eq!(s.state, SessionState::InProgress);
    assert_eq!(s.step(Some(b"\0alice\0secret"), &Credentials::empty(), &mut v), Ok(Step::Done(None)));
    for _ in 0..3 {
        let r = s.step(Some(b"\0alice\0secret"), &Credentials::empty(), &mut v);
        assert_eq!(r, Err(SessionError::Finished));
        assert_eq!(r.unwrap_err().kind(), ErrorKind::ProtocolState);
    }
    assert_eq!(v.calls, 1);
    assert!(s.is_finished() && s.is_authenticated());

    let mut f = reg.select(Side::Server, None, &cfg()).unwrap();
    assert!(f.step(Some(b"bad"), &Credentials::empty(), &mut v).is_err());
    assert_eq!(f.state, SessionState::Failed);
    assert_eq!(f.step(Some(b"\0a\0b"), &Credentials::empty(), &mut v), Err(SessionError::Finished));
    assert_eq!(v.calls, 1);
    assert!(f.is_finished() && !f.is_authenticated());
}

#[test]
fn select_prefers_priority_and_is_repeatable() {
    let mut reg = Registry::new();
    reg.register(mech("LOW", 10)).unwrap();
    reg.register(mech("HIGH", 20)).unwrap();
    reg.register(mech("TIE", 20)).unwrap();
    let cands = vec![b"LOW".to_vec(), b"TIE".to_vec(), b"HIGH".to_vec()];
    for _ in 0..3 {
        assert_eq!(reg.select_index(Side::Server, Some(cands.as_slice()), &cfg()), Some(1));
    }
    let only_low = vec![b"LOW".to_vec(), b"low".to_vec()];
    assert_eq!(reg.select_index(Side::Server, Some(only_low.as_slice()), &cfg()), Some(0));
    let none = vec![b"high".to_vec()];
    assert_eq!(reg.select_index(Side::Server, Some(none.as_slice()), &cfg()), None);
    assert!(reg.select(Side::Server, Some(none.as_slice()), &cfg()).is_none());
    assert_eq!(reg.select_index(Side::Client, None, &cfg()), Some(1));
}

#[test]
fn registration_rules() {
    let mut reg = Registry::new();
    assert_eq!(
        reg.register(mech("plain", 1)),
        Err(RegistrationError::InvalidName(MechnameError::InvalidCharacter))
    );
    assert_eq!(
        reg.register(mech("ABCDEFGHIJKLMNOPQRSTU", 1)),
        Err(RegistrationError::InvalidName(MechnameError::TooLong))
    );
    assert_eq!(reg.register(mech("", 1)), Err(RegistrationError::InvalidName(MechnameError::Empty)));
    assert_eq!(reg.register(mech("ABCDEFGHIJKLMNOPQRST", 1)), Ok(()));
    assert_eq!(reg.register(mech("SCRAM-SHA-1_X", 1)), Ok(()));
    assert_eq!(reg.register(mech("SCRAM-SHA-1_X", 2)), Err(RegistrationError::Duplicate));
    assert_eq!(reg.mechanisms.len(), 2);
    assert_eq!(check_mechname(b"A B"), Err(MechnameError::InvalidCharacter));
    assert_eq!(check_mechname(b"XOAUTH2"), Ok(()));
}

#[test]
fn client_messages() {
    let mut pc = PlainClient;
    assert_eq!(pc.step(None, &creds()), Ok(Step::Done(Some(b"\0alice\0secret".to_vec()))));
    let mut with_z = creds();
    with_z.authzid = Some("admin".to_string());
    assert_eq!(pc.step(None, &with_z), Ok(Step::Done(Some(b"admin\0alice\0secret".to_vec()))));
    assert_eq!(pc.step(None, &Credentials::empty()), Err(SessionError::MissingProperty));
    let mut ac = AnonymousClient;
    assert_eq!(ac.step(None, &creds()), Ok(Step::Done(Some(b"guest".to_vec()))));
    assert_eq!(ac.step(None, &Credentials::empty()), Err(SessionError::MissingProperty));
}

#[test]
fn client_session_round_trip() {
    let mut s = test_client_session(&plain_mechanism());
    assert_eq!(s.side, Side::Client);
    let mut v = accept();
    let out = s.step(None, &creds(), &mut v).unwrap();
    let msg = match out {
        Step::Done(Some(m)) => m,
        other => panic!("unexpected {:?}", other),
    };
    let mut server = Plain;
    assert_eq!(server.step(Some(&msg), &mut v), Ok(Step::Done(None)));
}

#[test]
fn demands_keep_first_answer() {
    let mut d = Demand::new(Property::Password);
    d.provide_ref(Property::AuthId, b"alice");
    assert!(!d.is_answered());
    d.provide_ref(Property::Password, b"one");
    d.provide_ref(Property::Password, b"two");
    assert_eq!(d.value, Some(b"one".to_vec()));
    assert_eq!(creds().request(Property::AuthzId), None);
    assert_eq!(creds().request(Property::AuthId), Some(b"alice".to_vec()));
    let p = parse_plain(b"admin\0alice\0secret").unwrap();
    let mut d = Demand::new(Property::AuthzId);
    p.provide(&mut d);
    assert_eq!(d.value, Some(b"admin".to_vec()));
}

#[test]
fn digest_tokens_are_wiped() {
    let mut c = DigestMd5Challenge {
        realms: vec![b"realm".to_vec(), b"other".to_vec()],
        nonce: b"nonce".to_vec(),
        qops: 3,
        stale: true,
        servermaxbuf: 65536,
        utf8: true,
        ciphers: 1,
    };
    digest_md5_free_challenge(&mut c);
    assert!(c.realms.is_empty());
    assert!(c.nonce.is_empty());
    assert!(c.qops == 0 && !c.stale && c.servermaxbuf == 0 && !c.utf8 && c.ciphers == 0);
    let mut r = DigestMd5Response {
        username: b"u".to_vec(),
        realm: b"r".to_vec(),
        nonce: b"n".to_vec(),
        cnonce: b"c".to_vec(),
        nc: 1,
        qop: 1,
        digesturi: b"d".to_vec(),
        clientmaxbuf: 2,
        utf8: true,
        cipher: 4,
        authzid: b"z".to_vec(),
        response: vec![7u8; 32],
    };
    digest_md5_free_response(&mut r);
    assert!(r.username.is_empty() && r.realm.is_empty() && r.nonce.is_empty());
    assert!(r.cnonce.is_empty() && r.digesturi.is_empty() && r.authzid.is_empty());
    assert_eq!(r.response, vec![0u8; 32]);
    assert!(r.nc == 0 && r.qop == 0 && r.clientmaxbuf == 0 && !r.utf8 && r.cipher == 0);
    let mut f = DigestMd5Finish { rspauth: vec![1u8; 32] };
    digest_md5_free_finish(&mut f);
    assert_eq!(f.rspauth, vec![0u8; 32]);
}

#[test]
fn error_messages() {
    assert_eq!(
        ParseError.message(),
        "the given anonymous token is invalid UTF-8 or longer than 255 chars"
    );
    assert_eq!(
        PlainError::BadFormat.message(),
        "invalid format, expected three strings separated by two NULL-bytes"
    );
    assert_eq!(PlainError::BadAuthzid.message(), "authzid is invalid UTF-8");
    assert_eq!(PlainError::BadAuthcid.message(), "authcid is invalid UTF-8");
    assert_eq!(PlainError::BadPassword.message(), "password is invalid UTF-8");
    assert_eq!(PlainError::Saslprep.message(), "saslprep failed");
}

#[test]
fn validator_consulted_once_per_valid_step() {
    let mut v = accept();
    let mut a = Anonymous;
    a.step(Some(b"guest"), &mut v).unwrap();
    assert_eq!(v.calls, 1);
    let mut p = Plain;
    p.step(Some(b"z\0alice\0secret"), &mut v).unwrap();
    assert_eq!(v.calls, 2);
    let mut saturated = FixedValidator { verdict: Verdict::Accepted, calls: u64::MAX };
    a.step(Some(b"guest"), &mut saturated).unwrap();
    assert_eq!(saturated.calls, u64::MAX);
}
