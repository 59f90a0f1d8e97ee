use vstd::prelude::*;

verus! {

/// The program that carries every call to the remote host.
pub const TRANSPORT_COMMAND: &'static str = "ssh";

/// The views of a list of arguments.
pub open spec fn args_view(args: Seq<String>) -> Seq<Seq<char>> {
    args.map_values(|a: String| a@)
}

/// A remote-shell transport to one destination.
///
/// Running the transport command with the arguments this builds runs a
/// command on the destination host; the session itself (host resolution,
/// keys, configuration) belongs to that command.
pub struct SSH {
    destination: String,
}

impl SSH {
    /// The destination host, as the transport command takes it.
    pub closed spec fn destination(&self) -> Seq<char> {
        self.destination@
    }

    /// A transport to `destination`.
    pub fn new(destination: &str) -> (r: SSH)
        ensures
            r.destination() == destination@,
    {
        SSH { destination: destination.to_owned() }
    }

    /// The transport command's arguments that run `remote` on the destination.
    pub fn command_args(&self, remote: Vec<String>) -> (r: Vec<String>)
        ensures
            args_view(r@) == seq![self.destination()] + args_view(remote@),
    {
        let mut args: Vec<String> = Vec::new();
        args.push(self.destination.clone());
        let ghost given = remote@;
        let mut remote = remote;
        args.append(&mut remote);
        assert(args_view(args@) =~= seq![self.destination()] + args_view(given));
        args
    }
}

} // verus!
