use crate::config::{
    build_model, DEFAULT_FINGERPRINT, KEY_FLOW, KEY_FP, KEY_SECURITY, KEY_SNI,
    MODE_REALITY, MODE_TLS,
};
use crate::descriptor::{parse_model, starts_with, DescriptorModel, ErrorKind, SCHEME_PREFIX};
use crate::params::lookup;
use crate::url_parts::{url_accepts, url_host_of, url_port_of, url_username_of};
use vstd::prelude::*;

verus! {

/// A link with the right scheme that the URL parser accepts and that names
/// an identity, a host and a port parses, and its configuration holds
/// exactly one listener and one outbound connection.
pub proof fn lemma_valid_link_gives_one_of_each(s: Seq<char>)
    requires
        starts_with(s, SCHEME_PREFIX@),
        url_accepts(s),
        url_username_of(s).len() > 0,
        url_host_of(s).is_some(),
        url_port_of(s).is_some(),
    ensures
        parse_model(s) is Ok,
        build_model(parse_model(s)->Ok_0).inbounds.len() == 1,
        build_model(parse_model(s)->Ok_0).outbounds.len() == 1,
{
}

/// A well-formed link with the right scheme but no identity fails with
/// `MissingIdentity`.
pub proof fn lemma_missing_identity(s: Seq<char>)
    requires
        starts_with(s, SCHEME_PREFIX@),
        url_accepts(s),
        url_username_of(s).len() == 0,
    ensures
        parse_model(s) == Err::<DescriptorModel, ErrorKind>(ErrorKind::MissingIdentity),
{
}

/// A well-formed link with the right scheme, an identity and a host but no
/// port fails with `MissingPort`.
pub proof fn lemma_missing_port(s: Seq<char>)
    requires
        starts_with(s, SCHEME_PREFIX@),
        url_accepts(s),
        url_username_of(s).len() > 0,
        url_host_of(s).is_some(),
        url_port_of(s).is_none(),
    ensures
        parse_model(s) == Err::<DescriptorModel, ErrorKind>(ErrorKind::MissingPort),
{
}

/// Building depends on the descriptor's value alone: two descriptors with
/// the same value give the same configuration.
pub proof fn lemma_build_deterministic(a: DescriptorModel, b: DescriptorModel)
    requires
        a == b,
    ensures
        build_model(a) == build_model(b),
{
}

/// `security=reality` gives the reality block only; `security=tls`, or no
/// `security` parameter, gives the TLS block only; any other value gives
/// neither.
pub proof fn lemma_security_branching(d: DescriptorModel)
    ensures
        ({
            let mode = build_model(d).outbounds[0].stream_settings.mode;
            let sec = lookup(d.params, KEY_SECURITY@);
            &&& sec == Some(MODE_REALITY@) ==> mode is Reality
            &&& (sec == Some(MODE_TLS@) || sec is None) ==> mode is Tls
            &&& (sec matches Some(v) && v != MODE_REALITY@ && v != MODE_TLS@) ==> mode is Other
        }),
{
    reveal_strlit("tls");
    reveal_strlit("reality");
    assert(MODE_REALITY@ != MODE_TLS@) by {
        assert(MODE_REALITY@.len() != MODE_TLS@.len());
    }
}

/// Without `sni`, TLS mode names the descriptor's host as server; without
/// `fp`, reality mode uses the `chrome` fingerprint.
pub proof fn lemma_defaults(d: DescriptorModel)
    ensures
        ({
            let mode = build_model(d).outbounds[0].stream_settings.mode;
            &&& (mode is Tls && !d.params.contains_key(KEY_SNI@)) ==> mode->Tls_0.server_name
                == d.host
            &&& (mode is Reality && !d.params.contains_key(KEY_FP@))
                ==> mode->Reality_0.fingerprint == DEFAULT_FINGERPRINT@
        }),
{
}

/// The user entry has a `flow` exactly when the descriptor has a `flow`
/// parameter, and then it is that parameter's value.
pub proof fn lemma_flow_presence(d: DescriptorModel)
    ensures
        build_model(d).outbounds[0].vnext[0].users[0].flow == lookup(d.params, KEY_FLOW@),
        build_model(d).outbounds[0].vnext[0].users[0].flow is Some <==> d.params.contains_key(
            KEY_FLOW@,
        ),
{
}

} // verus!
