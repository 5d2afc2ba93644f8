//! The registry of the participants of the network: who may register, who
//! is found by a lookup, and whose signature is valid.

use crate::models::network_registry::{
    LookupRequest, LookupResponse, NetworkRegistryLookup, Participant, Subscriber,
};
use crate::services::error::ServiceError;
use crate::signing::{
    base64_decoded, base64_encoded, decode_base64, ed25519_public_key, ed25519_valid,
    encodable, encode_base64, generate_pkcs8, public_key_of, verify_ed25519,
};
use crate::text::{
    decimal, decimal_text, join2, join3, lemma_filter_empty, lemma_filter_push, occurs_in, owned,
    str_contains, str_eq,
};
use crate::time::Timestamp;
use crate::web::{parse_url_host, url_host};
use vstd::prelude::*;

verus! {

/// What remains to be done to verify that a subscriber owns its domain.
#[derive(Clone, Copy, Debug, PartialEq, Eq, Structural)]
pub enum DomainCheck {
    /// Nothing: the domain is local.
    Skip,
    /// The URL of the subscriber is to be probed over the network.
    Probe,
}

/// How the probe of a URL ended.
#[derive(Debug, Clone)]
pub enum ProbeResult {
    /// The server answered with the HTTP status `code`; `text` is the status
    /// as it is shown to people.
    Status { code: u16, text: String },
    /// No answer came; the text says why.
    Failed(String),
}

/// The participant `participant` shows the subscriber `subscriber`.
pub open spec fn stands_for(participant: Participant, subscriber: Subscriber) -> bool {
    &&& participant.subscriber_id == subscriber.id
    &&& participant.participant_type == subscriber.type_field
    &&& participant.domains@ == seq![subscriber.domain]
    &&& participant.url == subscriber.url
    &&& participant.status == subscriber.status
    &&& participant.public_key == subscriber.public_key
    &&& participant.created_at == subscriber.created_at
    &&& participant.updated_at == subscriber.updated_at
    &&& participant.certificate is None
    &&& participant.metadata is None
}

/// The rules of the registry service.
pub struct NetworkRegistryService {}

impl NetworkRegistryService {
    /// What a subscriber lacks: the complaint about the first required
    /// field that is empty, if there is one.
    pub open spec fn missing_field(subscriber: Subscriber) -> Option<Seq<char>> {
        if subscriber.id@.len() == 0 {
            Some("Subscriber ID is required"@)
        } else if subscriber.type_field@.len() == 0 {
            Some("Subscriber type is required"@)
        } else if subscriber.domain@.len() == 0 {
            Some("Subscriber domain is required"@)
        } else if subscriber.url@.len() == 0 {
            Some("Subscriber URL is required"@)
        } else if subscriber.public_key@.len() == 0 {
            Some("Subscriber public key is required"@)
        } else {
            None
        }
    }

    /// The subscriber has every required field and its URL is one.
    pub open spec fn valid_subscriber(subscriber: Subscriber) -> bool {
        Self::missing_field(subscriber) is None && url_host(subscriber.url@) is Some
    }

    /// The domain counts as local: it names this machine.
    pub open spec fn local_domain(domain: Seq<char>) -> bool {
        occurs_in("localhost"@, domain) || occurs_in("127.0.0.1"@, domain)
    }

    /// What is to be done to verify the domain of `subscriber`, or `None`
    /// where the verification has failed already: the URL is none, has no
    /// host, or has another host than the domain that the subscriber claims.
    pub open spec fn spec_domain_check(subscriber: Subscriber) -> Option<DomainCheck> {
        match url_host(subscriber.url@) {
            Some(Some(host)) => if host != subscriber.domain@ {
                None
            } else if Self::local_domain(host) {
                Some(DomainCheck::Skip)
            } else {
                Some(DomainCheck::Probe)
            },
            _ => None,
        }
    }

    /// The lookup `request` finds `subscriber`: every criterion that is
    /// given holds of it.
    pub open spec fn finds(request: LookupRequest, subscriber: Subscriber) -> bool {
        &&& request.subscriber_id matches Some(id) ==> subscriber.id@ == id@
        &&& request.domain matches Some(domain) ==> occurs_in(domain@, subscriber.domain@)
        &&& request.participant_type matches Some(kind) ==> subscriber.type_field@ == kind@
    }

    /// The lookup names at least one criterion.
    pub open spec fn has_criteria(request: LookupRequest) -> bool {
        request.subscriber_id is Some || request.domain is Some || request.participant_type
            is Some
    }

    /// The subscribers of `subscribers` that `request` finds, in their
    /// order.
    pub open spec fn found(request: LookupRequest, subscribers: Seq<Subscriber>) -> Seq<
        Subscriber,
    > {
        subscribers.filter(|s: Subscriber| Self::finds(request, s))
    }

    /// The verdict on a signature, both in base64: whether it is valid, or
    /// `None` where the signature or the key is not base64.
    pub open spec fn spec_validate_signature(
        public_key: Seq<char>,
        signature: Seq<char>,
        message: Seq<u8>,
    ) -> Option<bool> {
        match (base64_decoded(signature), base64_decoded(public_key)) {
            (Some(sig), Some(key)) => Some(ed25519_valid(key, message, sig)),
            _ => None,
        }
    }

    /// The probe found the server and got a status from 200 to 299.
    pub open spec fn probe_succeeded(result: ProbeResult) -> bool {
        match result {
            ProbeResult::Status { code, text } => 200 <= code < 300,
            ProbeResult::Failed(_) => false,
        }
    }

    /// The PKCS#8 document `pkcs8` holds a key pair, and both the document
    /// and the public key of the pair can be encoded.
    pub open spec fn encodable_pair(pkcs8: Seq<u8>) -> bool {
        encodable(pkcs8) && match ed25519_public_key(pkcs8) {
            Some(key) => encodable(key),
            None => false,
        }
    }

    /// `public_key` and `private_key` are the encodings in base64 of the
    /// public key of the pair in `pkcs8` and of `pkcs8` itself.
    pub open spec fn is_encoded_pair(
        pkcs8: Seq<u8>,
        public_key: Seq<char>,
        private_key: Seq<char>,
    ) -> bool {
        &&& Self::encodable_pair(pkcs8)
        &&& public_key == base64_encoded(ed25519_public_key(pkcs8)->0)
        &&& private_key == base64_encoded(pkcs8)
    }

    /// The token with which the subscriber `subscriber_id` proves at the
    /// instant `now` that it owns its domain.
    pub open spec fn spec_verification_token(subscriber_id: Seq<char>, now: Timestamp) -> Seq<
        char,
    > {
        "uhi-verify-"@ + subscriber_id + "-"@ + decimal_text(now.seconds as int)
    }

    /// Checks that a subscriber has every required field and a URL.
    ///
    /// Fails with a validation error exactly where it does not; for a
    /// missing field, the error names the first one.
    pub fn validate_subscriber(subscriber: &Subscriber) -> (checked: Result<(), ServiceError>)
        ensures
            match checked {
                Ok(_) => Self::valid_subscriber(*subscriber),
                Err(e) => {
                    &&& !Self::valid_subscriber(*subscriber)
                    &&& e matches ServiceError::Validation(message)
                    &&& Self::missing_field(*subscriber) matches Some(complaint) ==> message@
                        == complaint
                },
            },
    {
        if subscriber.id.as_str().is_empty() {
            return Err(ServiceError::Validation(owned("Subscriber ID is required")));
        }
        if subscriber.type_field.as_str().is_empty() {
            return Err(ServiceError::Validation(owned("Subscriber type is required")));
        }
        if subscriber.domain.as_str().is_empty() {
            return Err(ServiceError::Validation(owned("Subscriber domain is required")));
        }
        if subscriber.url.as_str().is_empty() {
            return Err(ServiceError::Validation(owned("Subscriber URL is required")));
        }
        if subscriber.public_key.as_str().is_empty() {
            return Err(ServiceError::Validation(owned("Subscriber public key is required")));
        }
        match parse_url_host(subscriber.url.as_str()) {
            Ok(_) => Ok(()),
            Err(reason) => Err(
                ServiceError::Validation(join2("Invalid URL format: ", reason.as_str())),
            ),
        }
    }

    /// Says what is to be done to verify the domain of a subscriber, given
    /// what was read from its URL.
    ///
    /// Fails with a validation error where the URL is none, has no host, or
    /// has another host than the domain that the subscriber claims.
    pub fn check_domain(subscriber: &Subscriber, host: Result<Option<String>, String>) -> (check:
        Result<DomainCheck, ServiceError>)
        ensures
            match check {
                Ok(check) => host matches Ok(Some(name)) && name@ == subscriber.domain@ && check
                    == if Self::local_domain(name@) {
                    DomainCheck::Skip
                } else {
                    DomainCheck::Probe
                },
                Err(e) => e is Validation && !(host matches Ok(Some(name)) && name@
                    == subscriber.domain@),
            },
    {
        let name = match host {
            Ok(Some(name)) => name,
            Ok(None) => {
                return Err(ServiceError::Validation(owned("URL has no host component")));
            },
            Err(_) => {
                return Err(
                    ServiceError::Validation(join2("Invalid URL: ", subscriber.url.as_str())),
                );
            },
        };
        if !str_eq(name.as_str(), subscriber.domain.as_str()) {
            let found = join3("URL domain ", name.as_str(), " does not match claimed domain ");
            return Err(
                ServiceError::Validation(join2(found.as_str(), subscriber.domain.as_str())),
            );
        }
        if str_contains(name.as_str(), "localhost") || str_contains(name.as_str(), "127.0.0.1") {
            Ok(DomainCheck::Skip)
        } else {
            Ok(DomainCheck::Probe)
        }
    }

    /// Says what is to be done to verify that a subscriber owns its domain.
    ///
    /// Fails with a validation error where the URL of the subscriber is
    /// none, has no host, or has another host than the domain that the
    /// subscriber claims.
    pub fn verify_domain_ownership(subscriber: &Subscriber) -> (check: Result<
        DomainCheck,
        ServiceError,
    >)
        ensures
            match check {
                Ok(check) => Self::spec_domain_check(*subscriber) == Some(check),
                Err(e) => e is Validation && Self::spec_domain_check(*subscriber) is None,
            },
    {
        let host = parse_url_host(subscriber.url.as_str());
        Self::check_domain(subscriber, host)
    }

    /// Judges the probe of the URL of a subscriber: the domain is verified
    /// exactly where the server answered with a status from 200 to 299.
    ///
    /// Fails with a validation error in every other case.
    pub fn domain_probe_outcome(result: &ProbeResult) -> (verified: Result<(), ServiceError>)
        ensures
            match verified {
                Ok(_) => Self::probe_succeeded(*result),
                Err(e) => e is Validation && !Self::probe_succeeded(*result),
            },
    {
        match result {
            ProbeResult::Status { code, text } => {
                if 200 <= *code && *code < 300 {
                    Ok(())
                } else {
                    Err(
                        ServiceError::Validation(
                            join2("Domain verification failed: HTTP status ", text.as_str()),
                        ),
                    )
                }
            },
            ProbeResult::Failed(reason) => Err(
                ServiceError::Validation(join2("Domain verification failed: ", reason.as_str())),
            ),
        }
    }

    /// Admits a subscriber to registration and says what is to be done to
    /// verify its domain.
    ///
    /// Fails with a validation error where the subscriber is not valid or
    /// the verification of its domain fails at once.
    pub fn register_subscriber(subscriber: &Subscriber) -> (check: Result<
        DomainCheck,
        ServiceError,
    >)
        ensures
            match check {
                Ok(check) => Self::valid_subscriber(*subscriber) && Self::spec_domain_check(
                    *subscriber,
                ) == Some(check),
                Err(e) => e is Validation && !(Self::valid_subscriber(*subscriber)
                    && Self::spec_domain_check(*subscriber) is Some),
            },
    {
        match Self::validate_subscriber(subscriber) {
            Ok(_) => {},
            Err(e) => { return Err(e); },
        }
        Self::verify_domain_ownership(subscriber)
    }

    /// Checks that a lookup of one subscriber names a role or a domain.
    ///
    /// Fails with a validation error exactly where it names neither.
    pub fn lookup_subscriber(lookup: &NetworkRegistryLookup) -> (checked: Result<(), ServiceError>)
        ensures
            match checked {
                Ok(_) => lookup.type_field@.len() > 0 || lookup.domain@.len() > 0,
                Err(e) => e is Validation && lookup.type_field@.len() == 0 && lookup.domain@.len()
                    == 0,
            },
    {
        if lookup.type_field.as_str().is_empty() && lookup.domain.as_str().is_empty() {
            Err(ServiceError::Validation(owned("At least one lookup criteria must be provided")))
        } else {
            Ok(())
        }
    }

    /// Whether the lookup `request` finds `subscriber`.
    pub fn subscriber_matches(request: &LookupRequest, subscriber: &Subscriber) -> (found: bool)
        ensures
            found == Self::finds(*request, *subscriber),
    {
        let by_id = match &request.subscriber_id {
            Some(id) => str_eq(subscriber.id.as_str(), id.as_str()),
            None => true,
        };
        let by_domain = match &request.domain {
            Some(domain) => str_contains(subscriber.domain.as_str(), domain.as_str()),
            None => true,
        };
        let by_type = match &request.participant_type {
            Some(kind) => str_eq(subscriber.type_field.as_str(), kind.as_str()),
            None => true,
        };
        by_id && by_domain && by_type
    }

    /// The participant that shows `subscriber`.
    pub fn participant_of(subscriber: &Subscriber) -> (participant: Participant)
        ensures
            stands_for(participant, *subscriber),
    {
        let mut domains: Vec<String> = Vec::new();
        domains.push(subscriber.domain.clone());
        assert(domains@ =~= seq![subscriber.domain]);
        Participant {
            subscriber_id: subscriber.id.clone(),
            participant_type: subscriber.type_field.clone(),
            domains,
            url: subscriber.url.clone(),
            status: subscriber.status.clone(),
            public_key: subscriber.public_key.clone(),
            created_at: subscriber.created_at,
            updated_at: subscriber.updated_at,
            certificate: None,
            metadata: None,
        }
    }

    /// Looks participants up among `subscribers`: the answer shows the
    /// subscribers that `request` finds, in their order.
    ///
    /// Fails with a validation error exactly where the request names no
    /// criterion.
    pub fn lookup_participants(request: &LookupRequest, subscribers: &Vec<Subscriber>) -> (answer:
        Result<LookupResponse, ServiceError>)
        ensures
            match answer {
                Ok(response) => {
                    &&& Self::has_criteria(*request)
                    &&& response.participants@.len() == Self::found(*request, subscribers@).len()
                    &&& forall|k: int|
                        0 <= k < response.participants@.len() ==> stands_for(
                            #[trigger] response.participants@[k],
                            Self::found(*request, subscribers@)[k],
                        )
                },
                Err(e) => e is Validation && !Self::has_criteria(*request),
            },
    {
        if request.subscriber_id.is_none() && request.domain.is_none()
            && request.participant_type.is_none() {
            return Err(
                ServiceError::Validation(owned("At least one lookup criteria must be provided")),
            );
        }
        let ghost pred = |s: Subscriber| Self::finds(*request, s);
        let mut participants: Vec<Participant> = Vec::new();
        let mut i: usize = 0;
        proof {
            lemma_filter_empty(pred);
            assert(subscribers@.subrange(0, 0) =~= Seq::<Subscriber>::empty());
        }
        while i < subscribers.len()
            invariant
                i <= subscribers.len(),
                pred == (|s: Subscriber| Self::finds(*request, s)),
                participants@.len() == subscribers@.subrange(0, i as int).filter(pred).len(),
                forall|k: int|
                    0 <= k < participants@.len() ==> stands_for(
                        #[trigger] participants@[k],
                        subscribers@.subrange(0, i as int).filter(pred)[k],
                    ),
            decreases subscribers.len() - i,
        {
            proof {
                lemma_filter_push(subscribers@.subrange(0, i as int), subscribers@[i as int], pred);
                assert(subscribers@.subrange(0, i + 1) =~= subscribers@.subrange(0, i as int).push(
                    subscribers@[i as int],
                ));
            }
            if Self::subscriber_matches(request, &subscribers[i]) {
                participants.push(Self::participant_of(&subscribers[i]));
            }
            i += 1;
        }
        assert(subscribers@.subrange(0, i as int) =~= subscribers@);
        Ok(LookupResponse { participants })
    }

    /// Judges what the decoding of a signature and of a public key gave:
    /// hands both out where both were decoded.
    ///
    /// Fails with a validation error where the signature was not decoded,
    /// and else where the key was not.
    pub fn decoded_pair(signature: Option<Vec<u8>>, public_key: Option<Vec<u8>>) -> (pair: Result<
        (Vec<u8>, Vec<u8>),
        ServiceError,
    >)
        ensures
            match pair {
                Ok((sig, key)) => signature == Some(sig) && public_key == Some(key),
                Err(e) => e is Validation && (signature is None || public_key is None),
            },
    {
        let sig = match signature {
            Some(sig) => sig,
            None => {
                return Err(ServiceError::Validation(owned("Invalid signature format")));
            },
        };
        let key = match public_key {
            Some(key) => key,
            None => {
                return Err(ServiceError::Validation(owned("Invalid public key format")));
            },
        };
        Ok((sig, key))
    }

    /// Whether `signature` is a valid Ed25519 signature of `message` under
    /// `public_key`, the two given in base64.
    ///
    /// Fails with a validation error exactly where the signature or the key
    /// is not base64.
    pub fn validate_signature(public_key: &str, signature: &str, message: &[u8]) -> (verdict:
        Result<bool, ServiceError>)
        ensures
            match verdict {
                Ok(valid) => Self::spec_validate_signature(public_key@, signature@, message@)
                    == Some(valid),
                Err(e) => e is Validation && Self::spec_validate_signature(
                    public_key@,
                    signature@,
                    message@,
                ) is None,
            },
    {
        let decoded_signature = decode_base64(signature);
        let decoded_key = decode_base64(public_key);
        match Self::decoded_pair(decoded_signature, decoded_key) {
            Ok((sig, key)) => Ok(verify_ed25519(key.as_slice(), message, sig.as_slice())),
            Err(e) => Err(e),
        }
    }

    /// Encodes a key pair, given as a PKCS#8 document, for transport: the
    /// public key first, then the document, both in base64.
    ///
    /// Fails with an internal error exactly where the document holds no key
    /// pair or is too long to be encoded.
    pub fn encode_keypair(pkcs8: &Vec<u8>) -> (encoded: Result<(String, String), ServiceError>)
        ensures
            match encoded {
                Ok((public_key, private_key)) => Self::is_encoded_pair(
                    pkcs8@,
                    public_key@,
                    private_key@,
                ),
                Err(e) => e is Internal && !Self::encodable_pair(pkcs8@),
            },
    {
        let key = match public_key_of(pkcs8.as_slice()) {
            Some(key) => key,
            None => {
                return Err(ServiceError::Internal(owned("Failed to parse key pair")));
            },
        };
        if pkcs8.len() > usize::MAX / 2 || key.len() > usize::MAX / 2 {
            return Err(ServiceError::Internal(owned("Key pair is too long to encode")));
        }
        let public_key = encode_base64(key.as_slice());
        let private_key = encode_base64(pkcs8.as_slice());
        Ok((public_key, private_key))
    }

    /// Makes a new key pair for tests and hands it out encoded: the public
    /// key first, then the PKCS#8 document, both in base64.
    ///
    /// Fails with an internal error where the system gives no randomness or
    /// the new pair cannot be read back.
    pub fn generate_test_keypair() -> (pair: Result<(String, String), ServiceError>)
        ensures
            match pair {
                Ok((public_key, private_key)) => exists|pkcs8: Seq<u8>| #[trigger]
                    Self::is_encoded_pair(pkcs8, public_key@, private_key@),
                Err(e) => e is Internal,
            },
    {
        let pkcs8 = match generate_pkcs8() {
            Some(pkcs8) => pkcs8,
            None => {
                return Err(ServiceError::Internal(owned("Failed to generate key pair")));
            },
        };
        Self::encode_keypair(&pkcs8)
    }

    /// The token with which the subscriber `subscriber_id` proves at the
    /// instant `now` that it owns its domain.
    pub fn generate_verification_token(subscriber_id: &str, now: &Timestamp) -> (token: String)
        ensures
            token@ == Self::spec_verification_token(subscriber_id@, *now),
    {
        let seconds = decimal(now.seconds);
        let head = join3("uhi-verify-", subscriber_id, "-");
        join2(head.as_str(), seconds.as_str())
    }
}

} // verus!
