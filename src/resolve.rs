use vstd::prelude::*;
use crate::catalog::{builtin_catalog, builtin_presets};
use crate::model::{catalog_view, ModelPreset};
use crate::remote::{model_info_url, model_info_url_view, FetchError};

verus! {

/// How the caller is authenticated.
#[derive(Clone, Copy, Debug, PartialEq, Eq, Structural)]
pub enum AuthMode {
    ApiKey,
    ChatGPT,
    /// An alternate identity provider, whose catalog lives in a remote registry.
    OCA,
}

/// Why the asynchronous resolution failed.
#[derive(Clone, Copy, Debug, PartialEq, Eq, Structural)]
pub enum ResolutionError {
    /// The remote registry could not supply a catalog.
    Remote(FetchError),
}

/// What resolving a catalog takes: either the catalog is at hand, or it must be
/// fetched from `url` with `access_token` as bearer token.
#[derive(Debug)]
pub enum CatalogPlan {
    Ready(Vec<ModelPreset>),
    Fetch { url: String, access_token: String },
}

/// Whether `auth_mode` takes its catalog from the remote registry.
pub open spec fn uses_remote_catalog(auth_mode: Option<AuthMode>) -> bool {
    auth_mode == Some(AuthMode::OCA)
}

/// An optional string, an absent one read as empty.
pub open spec fn str_or_empty(s: Option<&str>) -> Seq<char> {
    match s {
        Some(v) => v@,
        None => Seq::empty(),
    }
}

fn requires_remote_catalog(auth_mode: Option<AuthMode>) -> (r: bool)
    ensures
        r == uses_remote_catalog(auth_mode),
{
    match auth_mode {
        Some(AuthMode::OCA) => true,
        _ => false,
    }
}

/// The built-in catalog, for an authentication mode that does not take its
/// catalog from the remote registry; that mode must go through
/// [`plan_resolution`].
pub fn builtin_model_presets_sync(auth_mode: Option<AuthMode>) -> (r: Vec<ModelPreset>)
    requires
        !uses_remote_catalog(auth_mode),
    ensures
        catalog_view(r@) == builtin_catalog(),
{
    builtin_presets()
}

/// The first step of the asynchronous resolution. Remote mode asks for the
/// registry's model listing below `base_url` (absent: empty) with
/// `access_token` (absent: empty); every other mode gets the built-in catalog.
pub fn plan_resolution(
    auth_mode: Option<AuthMode>,
    base_url: Option<&str>,
    access_token: Option<&str>,
) -> (r: CatalogPlan)
    ensures
        !uses_remote_catalog(auth_mode) ==> r is Ready && catalog_view(r->Ready_0@)
            == builtin_catalog(),
        uses_remote_catalog(auth_mode) ==> r is Fetch && r->url@ == model_info_url_view(
            str_or_empty(base_url),
        ) && r->access_token@ == str_or_empty(access_token),
{
    if requires_remote_catalog(auth_mode) {
        let url = match base_url {
            Some(b) => model_info_url(b),
            None => model_info_url(""),
        };
        let token = match access_token {
            Some(t) => String::from_str(t),
            None => String::new(),
        };
        proof {
            reveal_strlit("");
        }
        CatalogPlan::Fetch { url, access_token: token }
    } else {
        CatalogPlan::Ready(builtin_presets())
    }
}

/// The outcome of the asynchronous resolution from the outcome of the remote
/// fetch: a fetch error becomes `ResolutionError::Remote`, a catalog is kept.
pub fn finish_resolution(fetched: Result<Vec<ModelPreset>, FetchError>) -> (r: Result<
    Vec<ModelPreset>,
    ResolutionError,
>)
    ensures
        fetched is Ok ==> r is Ok && r->Ok_0@ == fetched->Ok_0@,
        fetched is Err ==> r == Err::<Vec<ModelPreset>, ResolutionError>(
            ResolutionError::Remote(fetched->Err_0),
        ),
{
    match fetched {
        Ok(presets) => Ok(presets),
        Err(e) => Err(ResolutionError::Remote(e)),
    }
}

} // verus!
