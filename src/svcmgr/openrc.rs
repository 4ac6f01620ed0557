use vstd::prelude::*;

verus! {

/// The directory of OpenRC's service scripts.
pub const SVCDIR: &'static str = "/etc/init.d";

/// The name of the service.
pub const SVCNAME: &'static str = "pwmp-server";

/// The OpenRC service manager.
pub struct Manager;

impl Manager {
    /// The path of the service's script.
    pub fn service_file_path() -> (r: String)
        ensures
            r@ == "/etc/init.d/pwmp-server"@,
    {
        let mut path = String::from_str(SVCDIR);
        path.append("/");
        path.append(SVCNAME);
        proof {
            reveal_strlit("/etc/init.d");
            reveal_strlit("/");
            reveal_strlit("pwmp-server");
            reveal_strlit("/etc/init.d/pwmp-server");
        }
        assert(path@ =~= "/etc/init.d/pwmp-server"@);
        path
    }
}

} // verus!
