use vstd::prelude::*;

verus! {

/// The directory of systemd's unit files.
pub const SVCDIR: &'static str = "/etc/systemd/system";

/// The name of the service.
pub const SVCNAME: &'static str = "pwmp-server";

/// The extension of a service unit.
pub const SVCEXT: &'static str = "service";

/// The systemd service manager.
pub struct Manager;

impl Manager {
    /// The path of the service's unit file.
    pub fn service_file_path() -> (r: String)
        ensures
            r@ == "/etc/systemd/system/pwmp-server.service"@,
    {
        let mut path = String::from_str(SVCDIR);
        path.append("/");
        path.append(SVCNAME);
        path.append(".");
        path.append(SVCEXT);
        proof {
            reveal_strlit("/etc/systemd/system");
            reveal_strlit("/");
            reveal_strlit("pwmp-server");
            reveal_strlit(".");
            reveal_strlit("service");
            reveal_strlit("/etc/systemd/system/pwmp-server.service");
        }
        assert(path@ =~= "/etc/systemd/system/pwmp-server.service"@);
        path
    }
}

} // verus!
