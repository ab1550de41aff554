use vstd::prelude::*;

verus! {

/// Base file name of the bundled server executable.
pub const SIDECAR_NAME: &'static str = "vwork-server";

/// Where the development tree keeps per-platform sidecar builds, relative to
/// the directory of the host executable.
pub const DEV_BINARIES_DIR: &'static str = "../../binaries";

/// `dir/<name><suffix>`: the executable placed next to the host.
pub open spec fn sibling_path(dir: Seq<char>, exe_suffix: Seq<char>) -> Seq<char> {
    dir + seq!['/'] + SIDECAR_NAME@ + exe_suffix
}

/// `dir/../../binaries/<name>-<triple><suffix>`: the development-tree build.
pub open spec fn dev_path(dir: Seq<char>, triple: Seq<char>, exe_suffix: Seq<char>) -> Seq<char> {
    dir + seq!['/'] + DEV_BINARIES_DIR@ + seq!['/'] + SIDECAR_NAME@ + seq!['-'] + triple
        + exe_suffix
}

/// The two places probed for the sidecar executable, in probing order.
pub struct Candidates {
    pub sibling: String,
    pub dev: String,
}

/// Neither candidate exists; both probed paths are kept for the report.
pub struct LocateError {
    pub sibling: String,
    pub dev: String,
}

impl Candidates {
    /// Builds both probe paths from the host executable's directory, the
    /// build's target triple and the platform's executable suffix.
    pub fn new(dir: &str, triple: &str, exe_suffix: &str) -> (r: Candidates)
        ensures
            r.sibling@ == sibling_path(dir@, exe_suffix@),
            r.dev@ == dev_path(dir@, triple@, exe_suffix@),
    {
        proof {
            reveal_strlit("/");
            reveal_strlit("-");
        }
        let mut sibling = String::from_str(dir);
        sibling.append("/");
        sibling.append(SIDECAR_NAME);
        sibling.append(exe_suffix);
        let mut dev = String::from_str(dir);
        dev.append("/");
        dev.append(DEV_BINARIES_DIR);
        dev.append("/");
        dev.append(SIDECAR_NAME);
        dev.append("-");
        dev.append(triple);
        dev.append(exe_suffix);
        Candidates { sibling, dev }
    }

    /// Picks the first candidate that exists on disk, the sibling first.
    pub fn pick(self, sibling_exists: bool, dev_exists: bool) -> (r: Result<String, LocateError>)
        ensures
            sibling_exists ==> r is Ok && r->Ok_0@ == self.sibling@,
            !sibling_exists && dev_exists ==> r is Ok && r->Ok_0@ == self.dev@,
            !sibling_exists && !dev_exists ==> r is Err && r->Err_0.sibling@ == self.sibling@
                && r->Err_0.dev@ == self.dev@,
    {
        if sibling_exists {
            Ok(self.sibling)
        } else if dev_exists {
            Ok(self.dev)
        } else {
            Err(LocateError { sibling: self.sibling, dev: self.dev })
        }
    }
}

impl LocateError {
    /// The report of a failed search, naming both probed paths.
    pub fn message(&self) -> (r: String)
        ensures
            r@ == "sidecar executable not found (tried "@ + self.sibling@ + " and "@ + self.dev@ + ")"@,
    {
        proof {
            reveal_strlit("sidecar executable not found (tried ");
            reveal_strlit(" and ");
            reveal_strlit(")");
        }
        let mut s = String::from_str("sidecar executable not found (tried ");
        s.append(self.sibling.as_str());
        s.append(" and ");
        s.append(self.dev.as_str());
        s.append(")");
        s
    }
}

} // verus!
