
pub const MILAN_REPORT_HEX: &[&str] = &[
    "020000000000000000000300000000000000000000000000000000000000000000000000000000000000000000000000",
    "0000000001000000030000000000087301000000000000000000000000000000d447b55d197491bfe15cf298f9de9986",
    "b7a7c4be2468b4f6e2d53b71d7c645810b0f2cdfca0040433be063fc1a8293f0f3f8dae7b79fecb3d1cd82bd6a93ebfd",
    "7a1e5c266c0108dbc9bb94fa926951320940915d0aafb42464bd88b579ea158d3e1a0dc39b2c60bd95b9c480cd81841f",
    "000000000000000000000000000000000000000000000000000000000000000000000000000000000000000000000000",
    "000000000000000000000000000000000000000000000000000000000000000000000000000000000000000000000000",
    "000000000000000000000000000000000000000000000000000000000000000092b3b47d59f0a2a10a74c5678868a802",
    "38cf593c01a82f3cffb878e904c28d5bffffffffffffffffffffffffffffffffffffffffffffffffffffffffffffffff",
    "0300000000000873000000000000000000000000000000000000000000000000d49554ec717f4e5b0fe6b143bcf0405b",
    "d7ae304727edf46603f2a76aef6a3abc15d7af38db757039029f0efacfd08e244324884738c72b082e2f87a44d541eb6",
    "030000000000087304340100043401000300000000000873000000000000000000000000000000000000000000000000",
    "000000000000000000000000000000000000000000000000000000000000000000000000000000000000000000000000",
    "000000000000000000000000000000000000000000000000000000000000000000000000000000000000000000000000",
    "000000000000000000000000000000000000000000000000000000000000000000000000000000000000000000000000",
    "61ab4f11aa661997625f233df42a4ad54440eeb7a96ea63de170cbc29c37c005cb54054881ec7d2bee569b02d07f8272",
    "000000000000000000000000000000000000000000000000209d7eb9be919a1d0baf1d57fe6ebfeabbc53b778c6e977e",
    "40b15ca931bb6d44c5ab9e30cfdc7346cb41ac083b90bf49000000000000000000000000000000000000000000000000",
    "000000000000000000000000000000000000000000000000000000000000000000000000000000000000000000000000",
    "000000000000000000000000000000000000000000000000000000000000000000000000000000000000000000000000",
    "000000000000000000000000000000000000000000000000000000000000000000000000000000000000000000000000",
    "000000000000000000000000000000000000000000000000000000000000000000000000000000000000000000000000",
    "000000000000000000000000000000000000000000000000000000000000000000000000000000000000000000000000",
    "000000000000000000000000000000000000000000000000000000000000000000000000000000000000000000000000",
    "000000000000000000000000000000000000000000000000000000000000000000000000000000000000000000000000",
    "0000000000000000000000000000000000000000000000000000000000000000",
];

pub const MILAN_VCEK_DER_HEX: &[&str] = &[
    "3082054c308202fba003020102020100304606092a864886f70d01010a3039a00f300d06096086480165030402020500",
    "a11c301a06092a864886f70d010108300d06096086480165030402020500a203020130a303020101307b311430120603",
    "55040b0c0b456e67696e656572696e67310b30090603550406130255533114301206035504070c0b53616e746120436c",
    "617261310b300906035504080c024341311f301d060355040a0c16416476616e636564204d6963726f20446576696365",
    "733112301006035504030c095345562d4d696c616e301e170d3233303430333139323334335a170d3330303430333139",
    "323334335a307a31143012060355040b0c0b456e67696e656572696e67310b3009060355040613025553311430120603",
    "5504070c0b53616e746120436c617261310b300906035504080c024341311f301d060355040a0c16416476616e636564",
    "204d6963726f20446576696365733111300f06035504030c085345562d5643454b3076301006072a8648ce3d02010605",
    "2b8104002203620004a17accd80b1edeb0d39f30aa5c08b14c7070051d293fce99a0de55e662a7c276857aa34067cd9e",
    "cf521c90489c0d4075d56e61ccda2be696efb1b9d4e9d15dd2fea32b0248409acc91481722402d31a2373ce1b0465098",
    "070f4f63cc7620a3e9a382011630820112301006092b060104019c7801010403020100301706092b060104019c780102",
    "040a16084d696c616e2d42303011060a2b060104019c7801030104030201033011060a2b060104019c78010302040302",
    "01003011060a2b060104019c7801030404030201003011060a2b060104019c7801030504030201003011060a2b060104",
    "019c7801030604030201003011060a2b060104019c7801030704030201003011060a2b060104019c7801030304030201",
    "083011060a2b060104019c780103080403020173304d06092b060104019c7801040440d49554ec717f4e5b0fe6b143bc",
    "f0405bd7ae304727edf46603f2a76aef6a3abc15d7af38db757039029f0efacfd08e244324884738c72b082e2f87a44d",
    "541eb6304606092a864886f70d01010a3039a00f300d06096086480165030402020500a11c301a06092a864886f70d01",
    "0108300d06096086480165030402020500a203020130a30302010103820201004e8b39ba08c0b93dd170369d91e74fdf",
    "de0d46012a3c5dab807504da09fcc219820410221ef949e8938274a51f696e98667792afb047a68754847f6f0cc2a92a",
    "9a19d76bd1c05336feb89ffdc630484edc45b9bc60d82ed8e73e5bec875e06961fe9c1c94b8e7044a0cf4ce2467e96d2",
    "3bb110ebe5e432d51a2e56ccac6ae824b1e57cb68523d70c8b9ac390bd679a25f1839c498853e8ebc99564b880475ebc",
    "5ce1a14c0d6e572a54e6036c4c7008a78b663a5323d3875190af1bdab603db46cdbfcd534462333d6746b7a939b955c6",
    "33b55d9e43bd2f19506005ea17fc35d69fd3209e1ee16574bf22ee61125575f122b3010641ec3058f49a38f1474199eb",
    "a4b4b688b255d52e42f5890cec7fb57d9558795451dfd0fd064feb088442a2a91a154819673c951764a2bd3e80a8bb2f",
    "0eeaa0fd4b2fc059f455eaa462106e6e50bab970fa66ca20975a9889bc5f9323be48030a8a5d962e21c4817df8fef4b7",
    "49a7afc021e0140b91f43c6918e25a7e359dd1be29d2bf8b694fd05805ade89f87dccc249a5e355ec2fdd51ee23fc579",
    "4e55d1800f2cdf50496144abdc6aabca4ef9faa8be2f6cdfa9fdbc1ade2fa931f9e1e9115cbdc7afb525528f4d17788b",
    "b309295db3af2efaf08914209a831135d517a7795407a5d7614006015363f98f976f2f4695efbf1788d572f06a9a1dc6",
    "7abf60bd9cd43e4a437932fe7d76ab10",
];

use snp_attest::attest::{
    check_bundle_nonce, verify_bundle, verify_evidence, verify_report, Check, JsonReport,
};
use snp_attest::cert::{build_chain, names_link, root_is_anchor, verify_chain, EndorsementCert};
use snp_attest::der::read_issuer_and_subject;
use snp_attest::error::{ChainLink, ErrorKind, VerifyError};
use snp_attest::extensions::{find, leaf_matches_report};
use snp_attest::report::decode_report;

fn report_bytes() -> Vec<u8> {
    hex::decode(MILAN_REPORT_HEX.concat()).unwrap()
}

fn vcek_der() -> Vec<u8> {
    hex::decode(MILAN_VCEK_DER_HEX.concat()).unwrap()
}

fn ark_der() -> Vec<u8> {
    pem::parse(sev::certs::snp::builtin::milan::ARK).unwrap().into_contents()
}

fn ask_der() -> Vec<u8> {
    pem::parse(sev::certs::snp::builtin::milan::ASK).unwrap().into_contents()
}

fn chain_ders() -> Vec<Vec<u8>> {
    vec![vcek_der(), ask_der(), ark_der()]
}

fn flip_after(der: &[u8], marker: &[u8], offset: usize) -> Vec<u8> {
    let at = der.windows(marker.len()).position(|w| w == marker).unwrap();
    let mut out = der.to_vec();
    out[at + marker.len() + offset] ^= 0x01;
    out
}

const HWID_OID: &[u8] = &[0x06, 0x09, 0x2b, 0x06, 0x01, 0x04, 0x01, 0x9c, 0x78, 0x01, 0x04];

const RSA_MODULUS_HEAD: &[u8] = &[0x02, 0x82, 0x02, 0x01, 0x00];

fn pem_text() -> String {
    let vcek = pem::encode(&pem::Pem::new("CERTIFICATE", vcek_der()));
    let ask = String::from_utf8(sev::certs::snp::builtin::milan::ASK.to_vec()).unwrap();
    let ark = String::from_utf8(sev::certs::snp::builtin::milan::ARK.to_vec()).unwrap();
    format!("{}{}{}", vcek, ask, ark)
}

#[test]
fn decodes_sample_report_fields() {
    let bytes = report_bytes();
    let report = decode_report(bytes.clone()).unwrap();
    assert_eq!(report.version(), 2);
    assert_eq!(report.vmpl(), 0);
    assert_eq!(report.policy(), 0x30000);
    assert_eq!(report.bytes(), &bytes);
    assert_eq!(report.report_data(), &bytes[0x50..0x90].to_vec());
    assert_eq!(report.measurement(), &bytes[0x90..0xc0].to_vec());
    assert_eq!(report.host_data(), &bytes[0xc0..0xe0].to_vec());
    assert_eq!(report.chip_id(), &bytes[0x1a0..0x1e0].to_vec());
    assert_eq!(report.reported_tcb(), &vec![3, 0, 0, 0, 0, 0, 8, 0x73]);
    assert_eq!(report.current_tcb(), 0x7308_0000_0000_0003);
    assert_eq!(report.guest_svn(), 0);
}

#[test]
fn wrong_length_buffers_are_malformed() {
    let bytes = report_bytes();
    for len in [0usize, 1, 0x2a0, 1183] {
        assert_eq!(decode_report(bytes[..len].to_vec()).err(), Some(VerifyError::MalformedReport));
    }
    let mut longer = bytes.clone();
    longer.push(0);
    assert_eq!(decode_report(longer).err(), Some(VerifyError::MalformedReport));
}

#[test]
fn set_reserved_byte_is_malformed() {
    for at in [0x4cusize, 0x190, 0x1eb, 0x1ef, 0x250, 0x400] {
        let mut bytes = report_bytes();
        bytes[at] = 1;
        assert_eq!(decode_report(bytes).err(), Some(VerifyError::MalformedReport));
    }
}

#[test]
fn unknown_report_version_is_malformed() {
    let mut bytes = report_bytes();
    bytes[0] = 1;
    assert_eq!(decode_report(bytes).err(), Some(VerifyError::MalformedReport));
}

#[test]
fn sample_evidence_verifies() {
    let bytes = report_bytes();
    let nonce = bytes[0x50..0x90].to_vec();
    assert_eq!(verify_evidence(bytes.clone(), chain_ders(), Some(&nonce)), Ok(()));
    assert_eq!(verify_evidence(bytes, chain_ders(), None), Ok(()));
}

#[test]
fn flipped_signed_byte_breaks_report_signature() {
    for at in [21usize, 0x50, 0x8f, 0xa0, 0x150] {
        let mut bytes = report_bytes();
        bytes[at] ^= 0x80;
        assert_eq!(
            verify_evidence(bytes, chain_ders(), None),
            Err(VerifyError::ReportSignatureInvalid)
        );
    }
}

#[test]
fn flipped_certificate_bodies_break_the_chain() {
    let report = report_bytes();
    let leaf = flip_after(&vcek_der(), HWID_OID, 7);
    assert_eq!(
        verify_evidence(report.clone(), vec![leaf, ask_der(), ark_der()], None),
        Err(VerifyError::ChainVerificationFailed(ChainLink::LeafOverIntermediate))
    );
    let intermediate = flip_after(&ask_der(), RSA_MODULUS_HEAD, 100);
    assert_eq!(
        verify_evidence(report.clone(), vec![vcek_der(), intermediate, ark_der()], None),
        Err(VerifyError::ChainVerificationFailed(ChainLink::IntermediateOverRoot))
    );
    let root = flip_after(&ark_der(), RSA_MODULUS_HEAD, 100);
    assert_eq!(
        verify_evidence(report, vec![vcek_der(), ask_der(), root], None),
        Err(VerifyError::UntrustedRoot)
    );
}

#[test]
fn reversed_certificate_order_fails() {
    let r = verify_evidence(report_bytes(), vec![ark_der(), ask_der(), vcek_der()], None);
    assert_eq!(r, Err(VerifyError::InvalidCertificate));
    let r = build_chain(vec![vcek_der(), ark_der(), ask_der()]);
    assert_eq!(r.err(), Some(VerifyError::InvalidCertificate));
}

#[test]
fn wrong_certificate_count_or_bytes_are_invalid() {
    assert_eq!(build_chain(vec![vcek_der(), ask_der()]).err(), Some(VerifyError::InvalidCertificate));
    assert_eq!(
        build_chain(vec![vcek_der(), ask_der(), ark_der(), ark_der()]).err(),
        Some(VerifyError::InvalidCertificate)
    );
    assert_eq!(
        build_chain(vec![vcek_der(), vec![0x30, 0x03, 0x01], ark_der()]).err(),
        Some(VerifyError::InvalidCertificate)
    );
    assert_eq!(EndorsementCert::from_der(vec![]).err(), Some(VerifyError::InvalidCertificate));
    let cert = EndorsementCert::from_der(ark_der()).unwrap();
    assert_eq!(cert.der(), &ark_der());
}

#[test]
fn names_link_only_in_chain_order() {
    assert!(names_link(&vcek_der(), &ask_der(), &ark_der()));
    assert!(!names_link(&ark_der(), &ask_der(), &vcek_der()));
    assert!(!names_link(&ask_der(), &ask_der(), &ark_der()));
    assert!(!names_link(&vcek_der(), &ask_der(), &vec![0x30, 0x00]));
}

#[test]
fn issuer_and_subject_are_read_from_the_body() {
    let (issuer, subject) = read_issuer_and_subject(&ark_der()).unwrap();
    assert_eq!(issuer, subject);
    let (vcek_issuer, vcek_subject) = read_issuer_and_subject(&vcek_der()).unwrap();
    assert_ne!(vcek_issuer, vcek_subject);
    assert_eq!(vcek_issuer, read_issuer_and_subject(&ask_der()).unwrap().1);
    assert_eq!(issuer[0], 0x30);
    assert_eq!(read_issuer_and_subject(&vec![0x30, 0x81]), None);
}

#[test]
fn chain_checks_and_anchor_are_separate() {
    let chain = build_chain(chain_ders()).unwrap();
    assert_eq!(verify_chain(&chain), Ok(()));
    assert!(root_is_anchor(&chain, &ark_der()));
    assert!(!root_is_anchor(&chain, &ask_der()));
    let report = decode_report(report_bytes()).unwrap();
    assert_eq!(verify_report(&chain, &report), Ok(()));
}

#[test]
fn leaf_extensions_match_sample_report() {
    let bytes = report_bytes();
    let chip = bytes[0x1a0..0x1e0].to_vec();
    let tcb = bytes[0x180..0x188].to_vec();
    assert!(leaf_matches_report(&vcek_der(), &chip, &tcb));
    let mut other_chip = chip.clone();
    other_chip[5] ^= 1;
    assert!(!leaf_matches_report(&vcek_der(), &other_chip, &tcb));
    let mut other_tcb = tcb.clone();
    other_tcb[7] = 0x74;
    assert!(!leaf_matches_report(&vcek_der(), &chip, &other_tcb));
    assert!(!leaf_matches_report(&vcek_der(), &chip, &tcb[..7].to_vec()));
    assert!(!leaf_matches_report(&ark_der(), &chip, &tcb));
}

#[test]
fn find_gives_first_occurrence() {
    let h = vec![1u8, 2, 3, 1, 2, 3];
    assert_eq!(find(&h, &vec![2, 3]), Some(1));
    assert_eq!(find(&h, &vec![3, 2]), None);
    assert_eq!(find(&h, &vec![]), Some(0));
    assert_eq!(find(&vec![1], &vec![1, 2]), None);
}

#[test]
fn bundle_with_pem_text_verifies() {
    let bytes = report_bytes();
    let bundle = JsonReport {
        attestation: bytes.clone(),
        platform_certificates: pem_text(),
        uvm_endorsements: vec![],
    };
    let nonce = snp_attest::nonce::NonceText::Hex(hex::encode(&bytes[0x50..0x90]));
    assert_eq!(verify_bundle(&bundle, Some(&nonce)), Ok(()));
    assert_eq!(verify_bundle(&bundle, None), Ok(()));
}

#[test]
fn bundle_outcome_is_repeatable() {
    let bundle = JsonReport {
        attestation: report_bytes(),
        platform_certificates: pem_text(),
        uvm_endorsements: vec![1, 2, 3],
    };
    let nonce = snp_attest::nonce::NonceText::Hex("00".repeat(64));
    let first = verify_bundle(&bundle, Some(&nonce));
    let second = verify_bundle(&bundle, Some(&nonce));
    assert_eq!(first.as_ref().unwrap_err().kind(), ErrorKind::NonceMismatch);
    assert_eq!(first, second);
}

#[test]
fn bundle_failures_by_stage() {
    let good = JsonReport {
        attestation: report_bytes(),
        platform_certificates: pem_text(),
        uvm_endorsements: vec![],
    };
    let bad_nonce = snp_attest::nonce::NonceText::Base64("not base64!".to_string());
    assert_eq!(verify_bundle(&good, Some(&bad_nonce)), Err(VerifyError::InvalidNonceEncoding));
    let short = JsonReport {
        attestation: vec![0; 10],
        platform_certificates: pem_text(),
        uvm_endorsements: vec![],
    };
    assert_eq!(verify_bundle(&short, None), Err(VerifyError::MalformedReport));
    let no_certs = JsonReport {
        attestation: report_bytes(),
        platform_certificates: String::new(),
        uvm_endorsements: vec![],
    };
    assert_eq!(verify_bundle(&no_certs, None), Err(VerifyError::InvalidCertificate));
}

#[test]
fn nonce_check_stands_apart_from_signatures() {
    let mut bytes = report_bytes();
    bytes[0x150] ^= 0x80;
    let bundle = JsonReport {
        attestation: bytes.clone(),
        platform_certificates: String::new(),
        uvm_endorsements: vec![],
    };
    let good = snp_attest::nonce::NonceText::Hex(hex::encode(&bytes[0x50..0x90]));
    assert_eq!(check_bundle_nonce(&bundle, &good), Ok(()));
    assert_eq!(verify_bundle(&bundle, Some(&good)), Err(VerifyError::InvalidCertificate));
    let zeros = snp_attest::nonce::NonceText::Hex("00".repeat(64));
    let r = check_bundle_nonce(&bundle, &zeros);
    assert_eq!(
        r,
        Err(VerifyError::NonceMismatch {
            found: hex::encode(&bytes[0x50..0x90]),
            expected: "00".repeat(64),
        })
    );
}

#[test]
fn signature_checks_dispatch_by_kind() {
    let chain = build_chain(chain_ders()).unwrap();
    let report = decode_report(report_bytes()).unwrap();
    assert!(Check::Link { issuer: &chain.root, subject: &chain.intermediate }.run());
    assert!(!Check::Link { issuer: &chain.intermediate, subject: &chain.root }.run());
    assert!(Check::ReportSignature { leaf: &chain.leaf, report: &report }.run());
    assert!(!Check::ReportSignature { leaf: &chain.intermediate, report: &report }.run());
}

const TURIN_VCEK_DER_HEX: &[&str] = &[
    "30820505308202b9a003020102020100304106092a864886f70d01010a3034a00f300d06096086480165030402020500",
    "a11c301a06092a864886f70d010108300d06096086480165030402020500a203020130307b31143012060355040b0c0b",
    "456e67696e656572696e67310b30090603550406130255533114301206035504070c0b53616e746120436c617261310b",
    "300906035504080c024341311f301d060355040a0c16416476616e636564204d6963726f204465766963657331123010",
    "06035504030c095345562d547572696e301e170d3234313130363231313430305a170d3331313130363231313430305a",
    "307a31143012060355040b0c0b456e67696e656572696e67310b30090603550406130255533114301206035504070c0b",
    "53616e746120436c617261310b300906035504080c024341311f301d060355040a0c16416476616e636564204d696372",
    "6f20446576696365733111300f06035504030c085345562d5643454b3076301006072a8648ce3d020106052b81040022",
    "0362000451f1e1b9412b682676305c41a32a4189fe3e0a5b549a25562a061aa0a8bdec40b5102af7e08666936045253b",
    "7c05087b45da0d2c4b69d05ddcb6a35c9892fb6c6e0eeddf98b7e08df71963536b808cabad88a88b4d2f48320442de63",
    "666191cba381da3081d7301006092b060104019c7801010403020101301406092b060104019c78010204071605547572",
    "696e3011060a2b060104019c7801030904030201003011060a2b060104019c7801030104030201003011060a2b060104",
    "019c7801030204030201003011060a2b060104019c7801030304030201003011060a2b060104019c7801030504030201",
    "003011060a2b060104019c7801030604030201003011060a2b060104019c7801030704030201003011060a2b06010401",
    "9c780103080403020109301506092b060104019c78010404081e550a8ee5cf9f4d304106092a864886f70d01010a3034",
    "a00f300d06096086480165030402020500a11c301a06092a864886f70d010108300d06096086480165030402020500a2",
    "0302013003820201006a3d3d8319b058bcb47de1767d26f4a17d4fdd01d707f9a4e7caf5725c4543aa024c9381b8bc77",
    "46cdd7623d0760477cbcd105464102ee4173a3def4dafba0fef9fd611654fbed38fa8bc84fa59b1cceb1800b3363b133",
    "c61a4b03fbc118efcf454068b575dd6572037cf3224a63dbb15f6785b976af1bb95476c4cf070a8d37c270e8897ee6bd",
    "29b9b1a6fbee979e63b3d81d6c34c7ddbe6f4bedf9790bdd0d604d93f1677fde210204539851dd2ad38b1e60cf4f4c3f",
    "a0574e5b56e34555f7646049f3a253f8973b213a71a1e04274e8daae4a9566b2ecf694d84f4a0c6843bc1093a011b07f",
    "971970dca0896c41ac90582f951d3fa84f6001a3d76190dcd143c91b4b172243c5093362266e8df64606e1aa279da5d2",
    "e57d8fff94f58e0163a8fe25981179b60ce7fad9df5b0c64b193c7ad67a235e580b237bc2809eca0f0489453d4c08d50",
    "60d194af9840d13cf4970f0a2b0e1b909edc16e52fce4f7c9a71842fd1988f8914c8f7ace9c01fb1ddfb423a7c9f9b1d",
    "be50ce9f02238916f3a904de53b36bc5aafd775afcb8cb05f7657437d51800d7c9452ffd4a59a3174babbb6cae1615cc",
    "be32e5ee016bf89faa6495e4951d7e342ca2d535eaad0eb2f4d2ec58996ebdeb24e6d0dfc28b13fea7ee9dda5ab829cf",
    "b936f17f0ee07c002cf41754c03c1076400e823a9d7dbc0c343ce94abd642589f0cabaca7f0a93d49f",
];

#[test]
fn turin_leaf_uses_short_chip_id_and_later_tcb_layout() {
    let der = hex::decode(TURIN_VCEK_DER_HEX.concat()).unwrap();
    let mut chip = vec![0x1e, 0x55, 0x0a, 0x8e, 0xe5, 0xcf, 0x9f, 0x4d];
    chip.resize(64, 0);
    let tcb = vec![0, 0, 0, 0, 0, 0, 0, 9];
    assert!(leaf_matches_report(&der, &chip, &tcb));
    let mut stray = chip.clone();
    stray[40] = 1;
    assert!(!leaf_matches_report(&der, &stray, &tcb));
    let mut other_tcb = tcb.clone();
    other_tcb[3] = 1;
    assert!(!leaf_matches_report(&der, &chip, &other_tcb));
}

#[test]
fn bytes_that_the_signature_check_drops_are_malformed() {
    for at in [0x3ausize, 0x3b, 0x182, 0x185, 0x1e2, 0x1f2] {
        let mut bytes = report_bytes();
        bytes[at] ^= 0x01;
        assert_eq!(decode_report(bytes.clone()).err(), Some(VerifyError::MalformedReport));
        assert_eq!(
            verify_evidence(bytes, chain_ders(), None),
            Err(VerifyError::MalformedReport)
        );
    }
}

#[test]
fn certificates_expose_their_public_keys() {
    let chain = build_chain(chain_ders()).unwrap();
    let leaf_key = chain.leaf.public_key();
    assert_eq!(leaf_key.len(), 97);
    assert_eq!(leaf_key[0], 0x04);
    assert!(vcek_der().windows(97).any(|w| w == &leaf_key[..]));
    assert_ne!(chain.root.public_key(), chain.intermediate.public_key());
}

#[test]
fn extensions_are_read_from_the_certificate_body_only() {
    let bytes = report_bytes();
    let chip = bytes[0x1a0..0x1e0].to_vec();
    let tcb = bytes[0x180..0x188].to_vec();
    let der = vcek_der();
    let exts = snp_attest::der::read_extensions(&der).unwrap();
    assert!(exts.windows(HWID_OID.len()).any(|w| w == HWID_OID));
    assert!(exts.len() < der.len());
    assert_eq!(snp_attest::der::read_extensions(&vec![0x30, 0x00]), None);
    let mut cut = der.clone();
    cut.truncate(200);
    assert!(!leaf_matches_report(&cut, &chip, &tcb));
}
