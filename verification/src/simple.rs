use vstd::prelude::*;

use crate::descriptor::{BackendDescriptor, DescriptorModel};
use crate::expr::{build_fod_expr, spec_fod_expr};
use crate::fields::{apply_text_overwrites, merged_fields, spec_json_fields, spec_merged_fields};
use crate::overwrites::Overwrites;
use crate::render::{render_json, render_nix, spec_render_json, spec_render_nix};
use crate::strategy::{HashRequest, HashRequestModel, ResolutionError, RevisionRequest};
use crate::submodules::{resolve_submodules_flag, spec_submodules_flag};
use crate::url::{extract_identifiers, spec_identifiers, ExtractionError, SourceUrl};

verus! {

/// The shared protocol of every backend: its static metadata, identifier
/// extraction, the submodules quirk, revision discovery, the generic
/// hashing strategy, and the two serializers.
pub trait SimpleFetcher {
    /// The backend's static metadata, as every contract speaks of it.
    spec fn dmodel(&self) -> DescriptorModel;

    /// Whether the backend can discover the latest revision by itself.
    spec fn spec_supports_latest(&self) -> bool;

    /// The URL whose response names the latest revision.
    spec fn spec_rev_request(&self, vals: Seq<Seq<char>>) -> Seq<char>;

    fn descriptor(&self) -> (d: BackendDescriptor)
        ensures
            d@ == self.dmodel(),
    ;

    fn supports_latest(&self) -> (b: bool)
        ensures
            b == self.spec_supports_latest(),
    ;

    /// Plan the network request that discovers the latest revision, or
    /// report that the backend cannot discover one, whatever the
    /// identifiers are.
    fn fetch_rev(&self, values: &Vec<String>) -> (r: Result<RevisionRequest, ResolutionError>)
        requires
            values@.len() == self.dmodel().keys.len(),
        ensures
            (self.spec_supports_latest() ==> (r matches Ok(q) && q.api_url@
                == self.spec_rev_request(values.deep_view()))),
            (!self.spec_supports_latest() ==> (r matches Err(ResolutionError::Unsupported(n))
                && n@ == self.dmodel().name)),
    ;

    /// The backend's fixed host, if it declares one.
    fn host(&self) -> (r: Option<String>)
        ensures
            r.deep_view() == self.dmodel().host,
    {
        let d = self.descriptor();
        d.host
    }

    /// The backend's fixed group, if it declares one.
    fn group(&self) -> (r: Option<String>)
        ensures
            r.deep_view() == self.dmodel().group,
    {
        let d = self.descriptor();
        d.group
    }

    /// Extract the backend's identifiers from the URL: the first `arity`
    /// path segments, failing exactly when fewer exist.
    fn get_values(&self, url: &SourceUrl) -> (r: Result<Vec<String>, ExtractionError>)
        ensures
            r is Ok <==> url@.len() >= self.dmodel().keys.len(),
            (r matches Ok(vals) ==> vals.deep_view() == spec_identifiers(
                url@,
                self.dmodel().keys.len() as int,
            )),
            (r matches Err(e) ==> e == ExtractionError::InsufficientSegments),
    {
        let d = self.descriptor();
        extract_identifiers(url, d.arity())
    }

    /// Resolve the caller's submodules choice against the backend's
    /// default: a choice is applied by exclusive or, none means false.
    fn resolve_submodules(&self, submodules: Option<bool>) -> (r: bool)
        ensures
            r == spec_submodules_flag(submodules, self.dmodel().submodules_default),
    {
        let d = self.descriptor();
        resolve_submodules_flag(submodules, d.submodules_default)
    }

    /// The generic hashing strategy, available to every backend: build the
    /// fixed-output-derivation expression for the external mechanism to
    /// realize.
    fn fetch_fod(
        &self,
        values: &Vec<String>,
        rev: &String,
        submodules: bool,
        args: &Vec<(String, String)>,
        args_str: &Vec<(String, String)>,
        nixpkgs: &String,
    ) -> (r: HashRequest)
        requires
            values@.len() == self.dmodel().keys.len(),
        ensures
            r@ == HashRequestModel::Fod(
                spec_fod_expr(
                    self.dmodel(),
                    values.deep_view(),
                    rev@,
                    submodules,
                    args.deep_view(),
                    args_str.deep_view(),
                    nixpkgs@,
                ),
            ),
    {
        let d = self.descriptor();
        HashRequest::Fod(build_fod_expr(&d, values, rev, submodules, args, args_str, nixpkgs))
    }

    /// Serialize the resolved invocation as a declarative expression,
    /// merging the overwrites in canonical field order.
    fn write_nix(
        &self,
        values: &Vec<String>,
        rev: String,
        hash: String,
        submodules: bool,
        args: Vec<(String, String)>,
        args_str: Vec<(String, String)>,
        overwrites: Overwrites,
        indent: String,
    ) -> (r: String)
        requires
            values@.len() == self.dmodel().keys.len(),
        ensures
            r@ == spec_render_nix(
                self.dmodel().name,
                indent@,
                spec_merged_fields(
                    self.dmodel(),
                    values.deep_view(),
                    rev@,
                    hash@,
                    submodules,
                    args.deep_view(),
                    args_str.deep_view(),
                    overwrites@,
                ),
            ),
    {
        let d = self.descriptor();
        let fields = merged_fields(
            &d,
            values,
            &rev,
            &hash,
            submodules,
            &args,
            &args_str,
            overwrites,
        );
        render_nix(&d.name, &indent, &fields)
    }

    /// Serialize the resolved invocation as the JSON document, the raw
    /// overwrites merged in canonical order and the string overwrites
    /// assigned last.
    fn write_json(
        &self,
        values: &Vec<String>,
        rev: String,
        hash: String,
        submodules: bool,
        args: Vec<(String, String)>,
        args_str: Vec<(String, String)>,
        overwrites: Overwrites,
        overwrites_str: Vec<(String, String)>,
    ) -> (r: String)
        requires
            values@.len() == self.dmodel().keys.len(),
        ensures
            r@ == spec_render_json(
                self.dmodel().name,
                spec_json_fields(
                    self.dmodel(),
                    values.deep_view(),
                    rev@,
                    hash@,
                    submodules,
                    args.deep_view(),
                    args_str.deep_view(),
                    overwrites@,
                    overwrites_str.deep_view(),
                ),
            ),
    {
        let d = self.descriptor();
        let mut fields = merged_fields(
            &d,
            values,
            &rev,
            &hash,
            submodules,
            &args,
            &args_str,
            overwrites,
        );
        apply_text_overwrites(&mut fields, &overwrites_str);
        render_json(&d.name, &fields)
    }
}

/// A backend whose only hashing strategy is the generic fixed-output
/// derivation.
pub trait SimpleFodFetcher: SimpleFetcher {
    fn fetch(
        &self,
        values: &Vec<String>,
        rev: &String,
        submodules: bool,
        args: &Vec<(String, String)>,
        args_str: &Vec<(String, String)>,
        nixpkgs: &String,
    ) -> (r: HashRequest)
        requires
            values@.len() == self.dmodel().keys.len(),
        ensures
            r@ == HashRequestModel::Fod(
                spec_fod_expr(
                    self.dmodel(),
                    values.deep_view(),
                    rev@,
                    submodules,
                    args.deep_view(),
                    args_str.deep_view(),
                    nixpkgs@,
                ),
            ),
    {
        self.fetch_fod(values, rev, submodules, args, args_str, nixpkgs)
    }
}

/// A backend with a flake-like reference: without extra arguments the
/// reference is resolved and hashed directly, which is cheaper than
/// materializing a full expression.
pub trait SimpleFlakeFetcher: SimpleFetcher {
    /// The compact reference that names the revision of the location.
    spec fn spec_flake_ref(&self, vals: Seq<Seq<char>>, rev: Seq<char>, submodules: bool) -> Seq<
        char,
    >;

    fn get_flake_ref(&self, values: &Vec<String>, rev: &String, submodules: bool) -> (r: String)
        requires
            values@.len() == self.dmodel().keys.len(),
        ensures
            r@ == self.spec_flake_ref(values.deep_view(), rev@, submodules),
    ;

    fn fetch(
        &self,
        values: &Vec<String>,
        rev: &String,
        submodules: bool,
        args: &Vec<(String, String)>,
        args_str: &Vec<(String, String)>,
        nixpkgs: &String,
    ) -> (r: HashRequest)
        requires
            values@.len() == self.dmodel().keys.len(),
        ensures
            (args@.len() == 0 && args_str@.len() == 0 ==> r@ == HashRequestModel::Flake(
                self.spec_flake_ref(values.deep_view(), rev@, submodules),
            )),
            (args@.len() > 0 || args_str@.len() > 0 ==> r@ == HashRequestModel::Fod(
                spec_fod_expr(
                    self.dmodel(),
                    values.deep_view(),
                    rev@,
                    submodules,
                    args.deep_view(),
                    args_str.deep_view(),
                    nixpkgs@,
                ),
            )),
    {
        if args.is_empty() && args_str.is_empty() {
            HashRequest::Flake(self.get_flake_ref(values, rev, submodules))
        } else {
            self.fetch_fod(values, rev, submodules, args, args_str, nixpkgs)
        }
    }
}

/// A backend whose repository can be cloned directly: with submodules
/// requested the clone recurses into them; otherwise the flake reference
/// is used, and extra arguments fall back to the generic strategy.
pub trait SimpleGitFetcher: SimpleFetcher {
    /// The compact reference that names the revision of the location.
    spec fn spec_flake_ref(&self, vals: Seq<Seq<char>>, rev: Seq<char>) -> Seq<char>;

    /// The URL under which the repository is cloned.
    spec fn spec_repo_url(&self, vals: Seq<Seq<char>>) -> Seq<char>;

    fn get_flake_ref(&self, values: &Vec<String>, rev: &String) -> (r: String)
        requires
            values@.len() == self.dmodel().keys.len(),
        ensures
            r@ == self.spec_flake_ref(values.deep_view(), rev@),
    ;

    fn get_repo_url(&self, values: &Vec<String>) -> (r: String)
        requires
            values@.len() == self.dmodel().keys.len(),
        ensures
            r@ == self.spec_repo_url(values.deep_view()),
    ;

    fn fetch(
        &self,
        values: &Vec<String>,
        rev: &String,
        submodules: bool,
        args: &Vec<(String, String)>,
        args_str: &Vec<(String, String)>,
        nixpkgs: &String,
    ) -> (r: HashRequest)
        requires
            values@.len() == self.dmodel().keys.len(),
        ensures
            (args@.len() == 0 && args_str@.len() == 0 && submodules ==> r@ == (
            HashRequestModel::Git {
                url: self.spec_repo_url(values.deep_view()),
                rev: rev@,
                fetch_submodules: !self.dmodel().submodules_default,
            })),
            (args@.len() == 0 && args_str@.len() == 0 && !submodules ==> r@
                == HashRequestModel::Flake(self.spec_flake_ref(values.deep_view(), rev@))),
            (args@.len() > 0 || args_str@.len() > 0 ==> r@ == HashRequestModel::Fod(
                spec_fod_expr(
                    self.dmodel(),
                    values.deep_view(),
                    rev@,
                    submodules,
                    args.deep_view(),
                    args_str.deep_view(),
                    nixpkgs@,
                ),
            )),
    {
        if args.is_empty() && args_str.is_empty() {
            if submodules {
                let d = self.descriptor();
                HashRequest::Git {
                    url: self.get_repo_url(values),
                    rev: rev.clone(),
                    fetch_submodules: !d.submodules_default,
                }
            } else {
                HashRequest::Flake(self.get_flake_ref(values, rev))
            }
        } else {
            self.fetch_fod(values, rev, submodules, args, args_str, nixpkgs)
        }
    }
}

/// A backend whose content is an addressable archive: without extra
/// arguments the download URL is fetched and hashed directly, unpacking
/// first when the backend says so.
pub trait SimpleUrlFetcher: SimpleFetcher {
    /// Whether the downloaded archive is unpacked before hashing.
    spec fn spec_unpack(&self) -> bool;

    /// The direct download URL of the revision.
    spec fn spec_url(&self, vals: Seq<Seq<char>>, rev: Seq<char>) -> Seq<char>;

    fn unpack(&self) -> (b: bool)
        ensures
            b == self.spec_unpack(),
    ;

    fn get_url(&self, values: &Vec<String>, rev: &String) -> (r: String)
        requires
            values@.len() == self.dmodel().keys.len(),
        ensures
            r@ == self.spec_url(values.deep_view(), rev@),
    ;

    fn fetch(
        &self,
        values: &Vec<String>,
        rev: &String,
        submodules: bool,
        args: &Vec<(String, String)>,
        args_str: &Vec<(String, String)>,
        nixpkgs: &String,
    ) -> (r: HashRequest)
        requires
            values@.len() == self.dmodel().keys.len(),
        ensures
            (args@.len() == 0 && args_str@.len() == 0 ==> r@ == (HashRequestModel::Url {
                url: self.spec_url(values.deep_view(), rev@),
                unpack: self.spec_unpack(),
            })),
            (args@.len() > 0 || args_str@.len() > 0 ==> r@ == HashRequestModel::Fod(
                spec_fod_expr(
                    self.dmodel(),
                    values.deep_view(),
                    rev@,
                    submodules,
                    args.deep_view(),
                    args_str.deep_view(),
                    nixpkgs@,
                ),
            )),
    {
        if args.is_empty() && args_str.is_empty() {
            HashRequest::Url { url: self.get_url(values, rev), unpack: self.unpack() }
        } else {
            self.fetch_fod(values, rev, submodules, args, args_str, nixpkgs)
        }
    }
}

} // verus!
