//! The extension that fills a local database with the tables of the TPC-H
//! benchmark.
use vstd::prelude::*;
use vstd::string::*;
use crate::params::lookup;
use crate::params::param_or;
use crate::params::Param;
use crate::text::surround;

verus! {

/// How an extension is set up: whether it is switched on, and its
/// parameters.
#[derive(Clone, Debug)]
pub struct ExtensionManifest {
    pub enabled: bool,
    pub params: Vec<Param>,
}

impl Default for ExtensionManifest {
    /// An extension that is switched off and has no parameters.
    fn default() -> (r: ExtensionManifest)
        ensures
            !r.enabled,
            r.params@.len() == 0,
    {
        ExtensionManifest { enabled: false, params: Vec::new() }
    }
}

/// The extension.
#[derive(Clone, Debug)]
pub struct TpchExtension {
    manifest: ExtensionManifest,
}

/// Makes extensions with one manifest.
#[derive(Clone, Debug)]
pub struct TpchExtensionFactory {
    manifest: ExtensionManifest,
}

/// What has to be done to fill the database.
#[derive(Clone, Debug)]
pub struct TpchPlan {
    /// The file of the database.
    pub path: String,
    /// The statements that generate the tables.
    pub query: String,
}

/// The statements that generate the tables at a scale factor.
pub open spec fn dbgen_query(scale_factor: Seq<char>) -> Seq<char> {
    "\n            INSTALL tpch;\n            LOAD tpch;\n            CALL dbgen(sf = "@
        + scale_factor + ");"@
}

impl TpchExtension {
    /// An extension with the given manifest.
    pub fn new(manifest: ExtensionManifest) -> (r: TpchExtension)
        ensures
            r.manifest() == manifest,
    {
        TpchExtension { manifest }
    }

    /// The manifest of the extension.
    pub closed spec fn manifest(&self) -> ExtensionManifest {
        self.manifest
    }

    /// The name of the extension.
    pub fn name(&self) -> (r: &'static str)
        ensures
            r@ == "tpch"@,
    {
        "tpch"
    }

    /// What has to be done when the extension starts: nothing where it is
    /// switched off. Otherwise the database is the file that the parameter
    /// `path` names (`.spice/data/tpch.db` by default), and the tables are
    /// generated at the scale factor that the parameter `scale_factor` gives
    /// (1 by default).
    pub fn initialize(&self) -> (r: Option<TpchPlan>)
        ensures
            !self.manifest().enabled ==> r is None,
            self.manifest().enabled ==> (r matches Some(plan) && plan.path@ == param_or(
                self.manifest().params@,
                "path"@,
                ".spice/data/tpch.db"@,
            ) && plan.query@ == dbgen_query(
                param_or(self.manifest().params@, "scale_factor"@, "1"@),
            )),
    {
        if !self.manifest.enabled {
            return None;
        }
        let path = lookup(&self.manifest.params, "path", ".spice/data/tpch.db");
        let scale_factor = lookup(&self.manifest.params, "scale_factor", "1");
        let query = surround(
            "\n            INSTALL tpch;\n            LOAD tpch;\n            CALL dbgen(sf = ",
            scale_factor.as_str(),
            ");",
        );
        Some(TpchPlan { path, query })
    }
}

impl Default for TpchExtension {
    /// An extension with the default manifest: switched off.
    fn default() -> (r: TpchExtension)
        ensures
            !r.manifest().enabled,
            r.manifest().params@.len() == 0,
    {
        TpchExtension::new(ExtensionManifest::default())
    }
}

impl TpchExtensionFactory {
    /// A factory that makes extensions with the given manifest.
    pub fn new(manifest: ExtensionManifest) -> (r: TpchExtensionFactory)
        ensures
            r.manifest() == manifest,
    {
        TpchExtensionFactory { manifest }
    }

    /// The manifest of the factory.
    pub closed spec fn manifest(&self) -> ExtensionManifest {
        self.manifest
    }

    /// Makes an extension. It is set up as the factory's manifest says.
    pub fn create(&self) -> (r: TpchExtension)
        ensures
            r.manifest().enabled == self.manifest().enabled,
            r.manifest().params@.len() == self.manifest().params@.len(),
            forall|i: int|
                0 <= i < self.manifest().params@.len() ==> (#[trigger] r.manifest().params@[i]).key@
                    == self.manifest().params@[i].key@ && r.manifest().params@[i].value@
                    == self.manifest().params@[i].value@,
    {
        let mut params: Vec<Param> = Vec::new();
        let mut i: usize = 0;
        while i < self.manifest.params.len()
            invariant
                i <= self.manifest.params@.len(),
                params@.len() == i,
                forall|j: int|
                    0 <= j < i ==> (#[trigger] params@[j]).key@ == self.manifest.params@[j].key@
                        && params@[j].value@ == self.manifest.params@[j].value@,
            decreases self.manifest.params@.len() - i,
        {
            let entry = &self.manifest.params[i];
            params.push(Param { key: entry.key.clone(), value: entry.value.clone() });
            i += 1;
        }
        TpchExtension { manifest: ExtensionManifest { enabled: self.manifest.enabled, params } }
    }
}

} // verus!
