use vstd::prelude::*;

use crate::action::Action;
use crate::components::containers::{Containers, DEFAULT_CMD};
use crate::components::{is_error, Component, Outcome, Reply, Request};
use crate::runtime::model::Filter;
use crate::text::{join2, join3, owned};
use crate::worker::Effect;

verus! {

/// Interactive session: runs a command in a container with the terminal handed to it.
#[derive(Debug)]
pub struct ContainerExec {
    pub cid: String,
    pub cname: String,
    pub command: String,
    pub should_stop: bool,
}

impl ContainerExec {
    /// A session that has not run yet, for `command` in container (cid, cname).
    pub open spec fn is_fresh(self, cid: Seq<char>, cname: Seq<char>, command: Seq<char>) -> bool {
        self.cid@ == cid && self.cname@ == cname && self.command@ == command && !self.should_stop
    }

    /// A session for `command`, by default a shell.
    pub fn new(cid: String, cname: String, command: Option<String>) -> (r: ContainerExec)
        ensures
            r.is_fresh(cid@, cname@, match command {
                Some(c) => c@,
                None => DEFAULT_CMD@,
            }),
    {
        let command = match command {
            Some(c) => c,
            None => owned(DEFAULT_CMD),
        };
        ContainerExec { cid, cname, command, should_stop: false }
    }

    pub fn get_name(&self) -> (r: &'static str)
        ensures
            r@ == "ContainerExec"@,
    {
        "ContainerExec"
    }

    /// On installation the terminal driver lets go of the terminal.
    pub fn setup(&self) -> (effects: Vec<Effect>)
        ensures
            effects@ == seq![Effect::StopTerminal],
    {
        let mut v = Vec::new();
        v.push(Effect::StopTerminal);
        assert(v@ =~= seq![Effect::StopTerminal]);
        v
    }

    /// On removal the terminal is cleared of what the session left.
    pub fn teardown(&self) -> (effects: Vec<Effect>)
        ensures
            effects@ == seq![Effect::ClearTerminal],
    {
        let mut v = Vec::new();
        v.push(Effect::ClearTerminal);
        assert(v@ =~= seq![Effect::ClearTerminal]);
        v
    }

    /// The session runs once, on the first action it receives.
    pub open spec fn request_post(self, r: Option<Request>) -> bool {
        &&& self.should_stop ==> r is None
        &&& !self.should_stop ==> (r matches Some(Request::Exec { cid, command }) && cid == self.cid && command == self.command)
    }

    pub fn request(&self) -> (r: Option<Request>)
        ensures
            self.request_post(r),
    {
        if self.should_stop {
            None
        } else {
            Some(Request::Exec { cid: self.cid.clone(), command: self.command.clone() })
        }
    }

    /// Once the remote command has ended (`Done`), the session asks for the terminal
    /// back, then for the container list, then reports a failure to run, if any.
    pub open spec fn update_post(old: ContainerExec, reply: Option<Reply>, new: ContainerExec, out: Outcome) -> bool {
        match reply {
            Some(Reply::Done(res)) if !old.should_stop => {
            &&& new == (ContainerExec { should_stop: true, ..old })
            &&& out.effects@.len() == 0
            &&& out.actions@.len() == (if res is Ok { 2int } else { 3int })
            &&& out.actions@[0] == Action::Resume
            &&& out.actions@[1] matches Action::Screen(Component::Containers(c)) && c.is_fresh(Seq::empty())
            &&& res matches Err(e) ==> is_error(
                out.actions@[2],
                "Unable to execute command \""@ + old.command@ + "\" in container \""@ + old.cname@ + "\"\n"@ + e@,
            )
            },
            _ => new == old && out.is_empty(),
        }
    }

    pub fn update(&mut self, reply: Option<Reply>) -> (out: Outcome)
        ensures
            Self::update_post(*old(self), reply, *final(self), out),
    {
        if self.should_stop {
            return Outcome::none();
        }
        match reply {
            Some(Reply::Done(res)) => {
                self.should_stop = true;
                let back = Containers::new(Filter::new());
                let mut out = Outcome::two(Action::Resume, Action::Screen(Component::Containers(back)));
                if let Err(e) = res {
                    let a = join3("Unable to execute command \"", self.command.as_str(), "\" in container \"");
                    let b = join3(a.as_str(), self.cname.as_str(), "\"\n");
                    out.actions.push(Action::Error(join2(b.as_str(), e.as_str())));
                }
                out
            },
            _ => Outcome::none(),
        }
    }
}

} // verus!
