use vstd::prelude::*;

use crate::descriptor::DescriptorModel;
use crate::fields::{descriptor_fields, spec_descriptor_fields, spec_json_fields, spec_merged_fields};
use crate::github::FetchFromGitHub;
use crate::overwrites::Overwrites;
use crate::render::{render_json, spec_render_json, spec_render_nix};
use crate::simple::{SimpleFetcher, SimpleFlakeFetcher};
use crate::strategy::{
    plan_revision, FetchError, HashRequest, HashRequestModel, ResolutionError, RevisionPlan,
    RevisionRequest,
};
use crate::submodules::spec_submodules_flag;
use crate::url::{spec_identifiers, ExtractionError, SourceUrl};

verus! {

/// What the first pipeline phase yields: the extracted identifiers, and
/// either the final revision or the network request that discovers it.
#[derive(Debug)]
pub enum Prepared {
    /// The revision is final; no revision work is left.
    Resolved(Vec<String>, String),
    /// The latest revision must be fetched with the given request; its
    /// response hands the pipeline the revision.
    NeedLatest(Vec<String>, RevisionRequest),
}

/// One uniform pipeline entry point per output mode, routed to whichever
/// backend was selected. The two stages that wait on outside work —
/// discovering the latest revision and hashing — hand a fully-determined
/// request to the caller and take the outcome back as a plain value.
pub trait Fetcher {
    /// The backend's static metadata.
    spec fn fmodel(&self) -> DescriptorModel;

    /// Whether the backend can discover the latest revision.
    spec fn fsupports_latest(&self) -> bool;

    /// The URL whose response names the latest revision.
    spec fn frev_request(&self, vals: Seq<Seq<char>>) -> Seq<char>;

    /// The backend's specialized hashing request when no extra arguments
    /// are present.
    spec fn fhash_request(&self, vals: Seq<Seq<char>>, rev: Seq<char>, submodules: bool) -> HashRequestModel;

    /// Extract the identifiers and decide the revision: a caller-supplied
    /// revision is final and nothing else is consulted; without one, a
    /// backend that supports discovery yields the request for the latest
    /// revision, and any other backend fails, whatever the identifiers.
    fn prepare(&self, url: &SourceUrl, caller_rev: Option<String>) -> (r: Result<
        Prepared,
        FetchError,
    >)
        ensures
            (url@.len() < self.fmodel().keys.len() ==> (r matches Err(FetchError::Extraction(e))
                && e == ExtractionError::InsufficientSegments)),
            (caller_rev matches Some(rv) ==> (url@.len() >= self.fmodel().keys.len() ==> (r matches
                Ok(Prepared::Resolved(vals, got)) && vals.deep_view() == spec_identifiers(
                url@,
                self.fmodel().keys.len() as int,
            ) && got@ == rv@))),
            (url@.len() >= self.fmodel().keys.len() && caller_rev is None
                && self.fsupports_latest() ==> (r matches Ok(Prepared::NeedLatest(vals, req))
                && vals.deep_view() == spec_identifiers(url@, self.fmodel().keys.len() as int)
                && req.api_url@ == self.frev_request(
                spec_identifiers(url@, self.fmodel().keys.len() as int),
            ))),
            (url@.len() >= self.fmodel().keys.len() && caller_rev is None
                && !self.fsupports_latest() ==> (r matches Err(
                FetchError::Resolution(ResolutionError::Unsupported(n)),
            ) && n@ == self.fmodel().name)),
    ;

    /// Plan the hashing call for the resolved revision: the backend's
    /// specialized strategy when no extra arguments are present, the
    /// generic fixed-output derivation otherwise.
    fn fetch_hash(
        &self,
        url: &SourceUrl,
        rev: &String,
        submodules: Option<bool>,
        args: &Vec<(String, String)>,
        args_str: &Vec<(String, String)>,
        nixpkgs: &String,
    ) -> (r: Result<HashRequest, FetchError>)
        ensures
            (url@.len() < self.fmodel().keys.len() ==> (r matches Err(FetchError::Extraction(e))
                && e == ExtractionError::InsufficientSegments)),
            (url@.len() >= self.fmodel().keys.len() && args@.len() == 0 && args_str@.len() == 0
                ==> (r matches Ok(req) && req@ == self.fhash_request(
                spec_identifiers(url@, self.fmodel().keys.len() as int),
                rev@,
                spec_submodules_flag(submodules, self.fmodel().submodules_default),
            ))),
            (url@.len() >= self.fmodel().keys.len() && (args@.len() > 0 || args_str@.len() > 0)
                ==> (r matches Ok(req) && req@ == HashRequestModel::Fod(
                crate::expr::spec_fod_expr(
                    self.fmodel(),
                    spec_identifiers(url@, self.fmodel().keys.len() as int),
                    rev@,
                    spec_submodules_flag(submodules, self.fmodel().submodules_default),
                    args.deep_view(),
                    args_str.deep_view(),
                    nixpkgs@,
                ),
            ))),
    ;

    /// Emit the declarative text output for the resolved revision and
    /// hash, the overwrites merged in canonical order.
    fn fetch_nix(
        &self,
        url: &SourceUrl,
        rev: String,
        hash: String,
        submodules: Option<bool>,
        args: Vec<(String, String)>,
        args_str: Vec<(String, String)>,
        overwrites: Overwrites,
        indent: String,
    ) -> (r: Result<String, FetchError>)
        ensures
            (url@.len() < self.fmodel().keys.len() ==> (r matches Err(FetchError::Extraction(e))
                && e == ExtractionError::InsufficientSegments)),
            (url@.len() >= self.fmodel().keys.len() ==> (r matches Ok(s) && s@ == spec_render_nix(
                self.fmodel().name,
                indent@,
                spec_merged_fields(
                    self.fmodel(),
                    spec_identifiers(url@, self.fmodel().keys.len() as int),
                    rev@,
                    hash@,
                    spec_submodules_flag(submodules, self.fmodel().submodules_default),
                    args.deep_view(),
                    args_str.deep_view(),
                    overwrites@,
                ),
            ))),
    ;

    /// Emit the JSON output for the resolved revision and hash, the raw
    /// overwrites merged in canonical order and the string overwrites
    /// assigned last.
    fn fetch_json(
        &self,
        url: &SourceUrl,
        rev: String,
        hash: String,
        submodules: Option<bool>,
        args: Vec<(String, String)>,
        args_str: Vec<(String, String)>,
        overwrites: Overwrites,
        overwrites_str: Vec<(String, String)>,
    ) -> (r: Result<String, FetchError>)
        ensures
            (url@.len() < self.fmodel().keys.len() ==> (r matches Err(FetchError::Extraction(e))
                && e == ExtractionError::InsufficientSegments)),
            (url@.len() >= self.fmodel().keys.len() ==> (r matches Ok(s) && s@ == spec_render_json(
                self.fmodel().name,
                spec_json_fields(
                    self.fmodel(),
                    spec_identifiers(url@, self.fmodel().keys.len() as int),
                    rev@,
                    hash@,
                    spec_submodules_flag(submodules, self.fmodel().submodules_default),
                    args.deep_view(),
                    args_str.deep_view(),
                    overwrites@,
                    overwrites_str.deep_view(),
                ),
            ))),
    ;

    /// Emit the descriptor-only JSON preview: which backend and which
    /// arguments would be used, with no revision or hashing work done.
    fn to_json(&self, url: &SourceUrl, rev: Option<String>) -> (r: Result<String, FetchError>)
        ensures
            (url@.len() < self.fmodel().keys.len() ==> (r matches Err(FetchError::Extraction(e))
                && e == ExtractionError::InsufficientSegments)),
            (url@.len() >= self.fmodel().keys.len() ==> (r matches Ok(s) && s@ == spec_render_json(
                self.fmodel().name,
                spec_descriptor_fields(
                    self.fmodel(),
                    spec_identifiers(url@, self.fmodel().keys.len() as int),
                    rev.deep_view(),
                ),
            ))),
    ;
}

impl Fetcher for FetchFromGitHub {
    open spec fn fmodel(&self) -> DescriptorModel {
        self.dmodel()
    }

    open spec fn fsupports_latest(&self) -> bool {
        self.spec_supports_latest()
    }

    open spec fn frev_request(&self, vals: Seq<Seq<char>>) -> Seq<char> {
        self.spec_rev_request(vals)
    }

    open spec fn fhash_request(&self, vals: Seq<Seq<char>>, rev: Seq<char>, submodules: bool) -> HashRequestModel {
        HashRequestModel::Flake(self.spec_flake_ref(vals, rev, submodules))
    }

    fn prepare(&self, url: &SourceUrl, caller_rev: Option<String>) -> (r: Result<
        Prepared,
        FetchError,
    >) {
        let values = match self.get_values(url) {
            Ok(v) => v,
            Err(e) => {
                return Err(FetchError::Extraction(e));
            },
        };
        proof {
            assert(values.deep_view().len() == self.dmodel().keys.len());
        }
        let d = self.descriptor();
        match plan_revision(caller_rev, self.supports_latest(), &d.name) {
            Ok(RevisionPlan::Resolved(rv)) => Ok(Prepared::Resolved(values, rv)),
            Ok(RevisionPlan::FetchLatest) => {
                match self.fetch_rev(&values) {
                    Ok(req) => Ok(Prepared::NeedLatest(values, req)),
                    Err(e) => Err(FetchError::Resolution(e)),
                }
            },
            Err(e) => Err(FetchError::Resolution(e)),
        }
    }

    fn fetch_hash(
        &self,
        url: &SourceUrl,
        rev: &String,
        submodules: Option<bool>,
        args: &Vec<(String, String)>,
        args_str: &Vec<(String, String)>,
        nixpkgs: &String,
    ) -> (r: Result<HashRequest, FetchError>) {
        let values = match self.get_values(url) {
            Ok(v) => v,
            Err(e) => {
                return Err(FetchError::Extraction(e));
            },
        };
        proof {
            assert(values.deep_view().len() == self.dmodel().keys.len());
        }
        let flag = self.resolve_submodules(submodules);
        Ok(self.fetch(&values, rev, flag, args, args_str, nixpkgs))
    }

    fn fetch_nix(
        &self,
        url: &SourceUrl,
        rev: String,
        hash: String,
        submodules: Option<bool>,
        args: Vec<(String, String)>,
        args_str: Vec<(String, String)>,
        overwrites: Overwrites,
        indent: String,
    ) -> (r: Result<String, FetchError>) {
        let values = match self.get_values(url) {
            Ok(v) => v,
            Err(e) => {
                return Err(FetchError::Extraction(e));
            },
        };
        proof {
            assert(values.deep_view().len() == self.dmodel().keys.len());
        }
        let flag = self.resolve_submodules(submodules);
        Ok(self.write_nix(&values, rev, hash, flag, args, args_str, overwrites, indent))
    }

    fn fetch_json(
        &self,
        url: &SourceUrl,
        rev: String,
        hash: String,
        submodules: Option<bool>,
        args: Vec<(String, String)>,
        args_str: Vec<(String, String)>,
        overwrites: Overwrites,
        overwrites_str: Vec<(String, String)>,
    ) -> (r: Result<String, FetchError>) {
        let values = match self.get_values(url) {
            Ok(v) => v,
            Err(e) => {
                return Err(FetchError::Extraction(e));
            },
        };
        proof {
            assert(values.deep_view().len() == self.dmodel().keys.len());
        }
        let flag = self.resolve_submodules(submodules);
        Ok(
            self.write_json(
                &values,
                rev,
                hash,
                flag,
                args,
                args_str,
                overwrites,
                overwrites_str,
            ),
        )
    }

    fn to_json(&self, url: &SourceUrl, rev: Option<String>) -> (r: Result<String, FetchError>) {
        let values = match self.get_values(url) {
            Ok(v) => v,
            Err(e) => {
                return Err(FetchError::Extraction(e));
            },
        };
        proof {
            assert(values.deep_view().len() == self.dmodel().keys.len());
        }
        let d = self.descriptor();
        let fields = descriptor_fields(&d, &values, &rev);
        Ok(render_json(&d.name, &fields))
    }
}

/// The closed union of the backend variants, one uniform entry point per
/// pipeline stage.
pub enum FetcherDispatch {
    FetchFromGitHub(FetchFromGitHub),
}

impl Fetcher for FetcherDispatch {
    open spec fn fmodel(&self) -> DescriptorModel {
        match self {
            FetcherDispatch::FetchFromGitHub(f) => Fetcher::fmodel(f),
        }
    }

    open spec fn fsupports_latest(&self) -> bool {
        match self {
            FetcherDispatch::FetchFromGitHub(f) => Fetcher::fsupports_latest(f),
        }
    }

    open spec fn frev_request(&self, vals: Seq<Seq<char>>) -> Seq<char> {
        match self {
            FetcherDispatch::FetchFromGitHub(f) => Fetcher::frev_request(f, vals),
        }
    }

    open spec fn fhash_request(&self, vals: Seq<Seq<char>>, rev: Seq<char>, submodules: bool) -> HashRequestModel {
        match self {
            FetcherDispatch::FetchFromGitHub(f) => Fetcher::fhash_request(f, vals, rev, submodules),
        }
    }

    fn prepare(&self, url: &SourceUrl, caller_rev: Option<String>) -> (r: Result<
        Prepared,
        FetchError,
    >) {
        match self {
            FetcherDispatch::FetchFromGitHub(f) => f.prepare(url, caller_rev),
        }
    }

    fn fetch_hash(
        &self,
        url: &SourceUrl,
        rev: &String,
        submodules: Option<bool>,
        args: &Vec<(String, String)>,
        args_str: &Vec<(String, String)>,
        nixpkgs: &String,
    ) -> (r: Result<HashRequest, FetchError>) {
        match self {
            FetcherDispatch::FetchFromGitHub(f) => f.fetch_hash(
                url,
                rev,
                submodules,
                args,
                args_str,
                nixpkgs,
            ),
        }
    }

    fn fetch_nix(
        &self,
        url: &SourceUrl,
        rev: String,
        hash: String,
        submodules: Option<bool>,
        args: Vec<(String, String)>,
        args_str: Vec<(String, String)>,
        overwrites: Overwrites,
        indent: String,
    ) -> (r: Result<String, FetchError>) {
        match self {
            FetcherDispatch::FetchFromGitHub(f) => f.fetch_nix(
                url,
                rev,
                hash,
                submodules,
                args,
                args_str,
                overwrites,
                indent,
            ),
        }
    }

    fn fetch_json(
        &self,
        url: &SourceUrl,
        rev: String,
        hash: String,
        submodules: Option<bool>,
        args: Vec<(String, String)>,
        args_str: Vec<(String, String)>,
        overwrites: Overwrites,
        overwrites_str: Vec<(String, String)>,
    ) -> (r: Result<String, FetchError>) {
        match self {
            FetcherDispatch::FetchFromGitHub(f) => f.fetch_json(
                url,
                rev,
                hash,
                submodules,
                args,
                args_str,
                overwrites,
                overwrites_str,
            ),
        }
    }

    fn to_json(&self, url: &SourceUrl, rev: Option<String>) -> (r: Result<String, FetchError>) {
        match self {
            FetcherDispatch::FetchFromGitHub(f) => f.to_json(url, rev),
        }
    }
}

} // verus!
