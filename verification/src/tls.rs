//! What is needed to serve TLS: where certificates come from and how they are resolved.

use vstd::prelude::*;

use crate::cli::{Cli, FilePath};
use crate::text;
use crate::time::TimeSpan;

verus! {

/// Whom an ACME provider may contact.
pub const ACME_CONTACT: &'static str = "mailto:boundary-nodes@dfinity.org";

/// Where certificates come from.
#[derive(Debug, PartialEq, Eq)]
pub enum Provider {
    /// A certificate issuer behind a URL, which is asked every now and then.
    Issuer(String, TimeSpan),
    File(FilePath),
    Dir(FilePath),
    CustomDomains,
}

/// Where certificates come from.
pub enum ProviderModel {
    Issuer(Seq<char>, TimeSpan),
    File(Seq<u8>),
    Dir(Seq<u8>),
    CustomDomains,
}

impl View for Provider {
    type V = ProviderModel;

    open spec fn view(&self) -> ProviderModel {
        match self {
            Provider::Issuer(url, interval) => ProviderModel::Issuer(url@, *interval),
            Provider::File(path) => ProviderModel::File(path@),
            Provider::Dir(path) => ProviderModel::Dir(path@),
            Provider::CustomDomains => ProviderModel::CustomDomains,
        }
    }
}

/// A list of providers.
pub open spec fn providers_view(providers: Seq<Provider>) -> Seq<ProviderModel> {
    providers.map_values(|provider: Provider| provider@)
}

/// A version of TLS.
#[derive(Clone, Copy, Debug, PartialEq, Eq, Structural)]
pub enum TlsVersion {
    Tls12,
    Tls13,
}

/// How a certificate for the hostname of the API is issued.
#[derive(Debug, PartialEq, Eq)]
pub struct AcmePlan {
    pub domains: Vec<String>,
    pub contact: &'static str,
    pub cache_path: FilePath,
}

/// What is needed to serve TLS.
#[derive(Debug)]
pub struct TlsPlan {
    pub providers: Vec<Provider>,
    /// How frequently the providers are polled.
    pub poll_interval: TimeSpan,
    pub acme: Option<AcmePlan>,
    /// Whether the protocol by which ACME validates is negotiated.
    pub acme_alpn: bool,
    pub versions: Vec<TlsVersion>,
}

/// There is nowhere to take certificates from.
#[derive(Clone, Copy, Debug, PartialEq, Eq)]
pub struct NoCertificateProviders;

impl NoCertificateProviders {
    pub fn to_text(&self) -> (text: &'static str)
        ensures
            text@ == "No certificate providers specified - HTTPS cannot be used"@,
    {
        "No certificate providers specified - HTTPS cannot be used"
    }
}

/// The providers that the settings ask for: first the issuers, then the files, then the
/// directories, and custom domains last.
pub open spec fn configured_providers(cli: Cli) -> Seq<ProviderModel> {
    let issuers = cli.cert.cert_provider_issuer_url@.map_values(
        |url: String|
            ProviderModel::Issuer(url@, cli.cert.cert_provider_issuer_poll_interval),
    );
    let files = cli.cert.cert_provider_file@.map_values(
        |path: FilePath| ProviderModel::File(path@),
    );
    let dirs = cli.cert.cert_provider_dir@.map_values(|path: FilePath| ProviderModel::Dir(path@));
    let custom_domains = if cli.custom_domains {
        seq![ProviderModel::CustomDomains]
    } else {
        Seq::empty()
    };
    issuers + files + dirs + custom_domains
}

impl AcmePlan {
    /// The certificate is issued for the hostname of the API.
    pub open spec fn follows(self, cli: Cli) -> bool {
        &&& self.domains@.len() == 1
        &&& self.domains@[0]@ == cli.api.api_hostname->0@
        &&& self.contact@ == ACME_CONTACT@
        &&& self.cache_path@ == cli.api.api_acme_cache->0@
    }
}

/// A certificate for the API can be issued only if its hostname and a place to keep it are known.
pub open spec fn acme_possible(cli: Cli) -> bool {
    cli.api.api_acme ==> cli.api.api_hostname is Some && cli.api.api_acme_cache is Some
}

/// Lists the providers that the settings ask for.
pub fn list_providers(cli: &Cli) -> (providers: Vec<Provider>)
    ensures
        providers_view(providers@) == configured_providers(*cli),
{
    let mut providers: Vec<Provider> = Vec::new();
    let interval: TimeSpan = cli.cert.cert_provider_issuer_poll_interval;
    let urls: &Vec<String> = &cli.cert.cert_provider_issuer_url;
    let ghost issuers = urls@.map_values(|url: String| ProviderModel::Issuer(url@, interval));
    let mut i: usize = 0;
    while i < urls.len()
        invariant
            i <= urls.len(),
            issuers == urls@.map_values(|url: String| ProviderModel::Issuer(url@, interval)),
            providers_view(providers@) == issuers.take(i as int),
        decreases urls.len() - i,
    {
        let ghost had = providers@;
        providers.push(Provider::Issuer(urls[i].clone(), interval));
        assert(providers_view(providers@) =~= providers_view(had).push(issuers[i as int]));
        assert(issuers.take(i + 1) =~= issuers.take(i as int).push(issuers[i as int]));
        i += 1;
    }
    assert(issuers.take(i as int) =~= issuers);
    let paths: &Vec<FilePath> = &cli.cert.cert_provider_file;
    let ghost files = paths@.map_values(|path: FilePath| ProviderModel::File(path@));
    let mut i: usize = 0;
    while i < paths.len()
        invariant
            i <= paths.len(),
            files == paths@.map_values(|path: FilePath| ProviderModel::File(path@)),
            providers_view(providers@) == issuers + files.take(i as int),
        decreases paths.len() - i,
    {
        let ghost had = providers@;
        providers.push(Provider::File(paths[i].clone()));
        assert(providers_view(providers@) =~= providers_view(had).push(files[i as int]));
        assert(files.take(i + 1) =~= files.take(i as int).push(files[i as int]));
        i += 1;
    }
    assert(files.take(i as int) =~= files);
    let paths: &Vec<FilePath> = &cli.cert.cert_provider_dir;
    let ghost dirs = paths@.map_values(|path: FilePath| ProviderModel::Dir(path@));
    let mut i: usize = 0;
    while i < paths.len()
        invariant
            i <= paths.len(),
            dirs == paths@.map_values(|path: FilePath| ProviderModel::Dir(path@)),
            providers_view(providers@) == issuers + files + dirs.take(i as int),
        decreases paths.len() - i,
    {
        let ghost had = providers@;
        providers.push(Provider::Dir(paths[i].clone()));
        assert(providers_view(providers@) =~= providers_view(had).push(dirs[i as int]));
        assert(dirs.take(i + 1) =~= dirs.take(i as int).push(dirs[i as int]));
        i += 1;
    }
    assert(dirs.take(i as int) =~= dirs);
    if cli.custom_domains {
        providers.push(Provider::CustomDomains);
    }
    assert(providers_view(providers@) =~= configured_providers(*cli));
    providers
}

/// Prepares what is needed to serve TLS.
pub fn setup(cli: &Cli) -> (plan: Result<TlsPlan, NoCertificateProviders>)
    requires
        configured_providers(*cli).len() > 0 ==> acme_possible(*cli),
    ensures
        match plan {
            Err(NoCertificateProviders) => configured_providers(*cli).len() == 0,
            Ok(plan) => {
                &&& configured_providers(*cli).len() > 0
                &&& providers_view(plan.providers@) == configured_providers(*cli)
                &&& plan.poll_interval == cli.cert.cert_provider_poll_interval
                &&& plan.acme is Some == cli.api.api_acme
                &&& plan.acme matches Some(acme) ==> acme.follows(*cli)
                &&& plan.acme matches Some(acme) ==> {
                    &&& acme.domains@.len() == 1
                    &&& acme.domains@[0]@ == cli.api.api_hostname->0@
                    &&& acme.cache_path@ == cli.api.api_acme_cache->0@
                }
                &&& plan.acme_alpn == cli.api.api_acme
                &&& plan.versions@ == seq![TlsVersion::Tls13, TlsVersion::Tls12]
            },
        },
{
    let providers: Vec<Provider> = list_providers(cli);
    assert(providers_view(providers@).len() == providers@.len());
    if providers.len() == 0 {
        return Err(NoCertificateProviders);
    }
    let acme: Option<AcmePlan> = match (&cli.api.api_hostname, &cli.api.api_acme_cache) {
        (Some(hostname), Some(cache)) => {
            if cli.api.api_acme {
                Some(
                    AcmePlan {
                        domains: vec![hostname.clone()],
                        contact: ACME_CONTACT,
                        cache_path: cache.clone(),
                    },
                )
            } else {
                None
            }
        },
        _ => None,
    };
    Ok(
        TlsPlan {
            providers,
            poll_interval: cli.cert.cert_provider_poll_interval,
            acme,
            acme_alpn: cli.api.api_acme,
            versions: vec![TlsVersion::Tls13, TlsVersion::Tls12],
        },
    )
}

/// The task that runs the client of custom domains.
pub const CUSTOM_DOMAINS_CLIENT_TASK: &'static str = "custom_domains_canister_client";

/// The name of the task that runs a worker for custom domains.
pub fn custom_domains_worker_task(worker: u64) -> (name: String)
    ensures
        name@ == "custom_domains_worker_"@ + text::decimal_text(worker as nat),
{
    text::join("custom_domains_worker_", text::decimal(worker).as_str())
}

/// Every issuer, file and directory that the settings name is a provider, in that order and each
/// group in its own, an issuer with the interval at which it is asked. Custom domains are the last
/// provider if they are served. There are no other providers.
pub proof fn providers_are_all_there(cli: Cli)
    ensures
        ({
            let providers = configured_providers(cli);
            let urls = cli.cert.cert_provider_issuer_url@;
            let files = cli.cert.cert_provider_file@;
            let dirs = cli.cert.cert_provider_dir@;
            let interval = cli.cert.cert_provider_issuer_poll_interval;
            &&& providers.len() == urls.len() + files.len() + dirs.len() + (
            if cli.custom_domains {
                1int
            } else {
                0int
            })
            &&& forall|i: int|
                0 <= i < urls.len() ==> providers[i] == ProviderModel::Issuer(
                    (#[trigger] urls[i])@,
                    interval,
                )
            &&& forall|i: int|
                0 <= i < files.len() ==> providers[urls.len() + i] == ProviderModel::File(
                    (#[trigger] files[i])@,
                )
            &&& forall|i: int|
                0 <= i < dirs.len() ==> providers[urls.len() + files.len() + i]
                    == ProviderModel::Dir((#[trigger] dirs[i])@)
            &&& cli.custom_domains ==> providers.last() == ProviderModel::CustomDomains
        }),
{
}

/// A certificate for the API can be issued exactly if none is asked for or if its hostname and the
/// place to keep it are known.
pub proof fn acme_needs_a_hostname_and_a_cache(cli: Cli)
    ensures
        acme_possible(cli) <==> !cli.api.api_acme || (cli.api.api_hostname is Some
            && cli.api.api_acme_cache is Some),
{
}

/// HTTPS can be served exactly if the settings name an issuer, a file or a directory, or if custom
/// domains are served.
pub proof fn https_needs_one_provider(cli: Cli)
    ensures
        configured_providers(cli).len() == 0 <==> {
            &&& cli.cert.cert_provider_issuer_url@.len() == 0
            &&& cli.cert.cert_provider_file@.len() == 0
            &&& cli.cert.cert_provider_dir@.len() == 0
            &&& !cli.custom_domains
        },
{
}

/// The certificate that is issued is for the hostname of the API and for no other, and it is kept
/// where the settings say.
pub proof fn certificates_are_issued_for_the_api(plan: AcmePlan, cli: Cli)
    requires
        plan.follows(cli),
        cli.api.api_hostname is Some,
        cli.api.api_acme_cache is Some,
    ensures
        plan.domains@.len() == 1,
        plan.domains@[0]@ == cli.api.api_hostname->0@,
        plan.contact@ == "mailto:boundary-nodes@dfinity.org"@,
        plan.cache_path@ == cli.api.api_acme_cache->0@,
{
}

/// No two workers for custom domains have tasks of the same name.
pub proof fn workers_have_tasks_of_their_own(one: u64, other: u64)
    requires
        "custom_domains_worker_"@ + text::decimal_text(one as nat) == "custom_domains_worker_"@
            + text::decimal_text(other as nat),
    ensures
        one == other,
{
    let prefix = "custom_domains_worker_"@;
    let a = text::decimal_text(one as nat);
    let b = text::decimal_text(other as nat);
    assert((prefix + a).skip(prefix.len() as int) =~= a);
    assert((prefix + b).skip(prefix.len() as int) =~= b);
    text::decimals_can_be_read(one as nat);
    text::decimals_can_be_read(other as nat);
}

/// What is told of a provider is all there is to it.
pub proof fn providers_are_told_apart(
    url: String,
    interval: TimeSpan,
    path: FilePath,
    other: Provider,
)
    ensures
        Provider::Issuer(url, interval)@ == other@ <==> (other matches Provider::Issuer(u, i)
            && u@ == url@ && i == interval),
        Provider::File(path)@ == other@ <==> (other matches Provider::File(p) && p.bytes@
            == path.bytes@),
        Provider::Dir(path)@ == other@ <==> (other matches Provider::Dir(p) && p.bytes@
            == path.bytes@),
        Provider::CustomDomains@ == other@ <==> other is CustomDomains,
{
}

} // verus!
