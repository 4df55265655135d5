//! Boot sequence for a desktop application shell.
//!
//! The host GUI framework owns the window, the event loop and the plugin
//! dispatch; this crate owns the decisions made while booting: which
//! capability plugins to register, in what order, when to hand control to
//! the framework's run loop, and what the process must report when the
//! framework cannot start. A thin unverified driver carries each prescribed
//! step out and reports the run loop's result back.

use vstd::prelude::*;

verus! {

/// A capability plugin that the shell registers with the host framework
/// before the run loop starts.
#[derive(Clone, Copy, PartialEq, Eq, Debug)]
pub enum Plugin {
    /// Exposes file-system operations to the application's front-end layer.
    FilesystemAccess,
    /// Exposes "open external resource or path" to the front-end layer.
    Opener,
}

/// The next action the driver must perform while booting.
#[derive(Clone, Copy, PartialEq, Eq, Debug)]
pub enum Step {
    /// Register the named plugin with the framework builder.
    Register(Plugin),
    /// Every plugin is registered: hand control to the framework's run loop.
    Run,
}

/// How the process ends once the framework's run loop has returned.
#[derive(Clone, Copy, PartialEq, Eq, Debug)]
pub enum Outcome {
    /// The run loop ended normally; the process exits cleanly.
    Exited,
    /// The framework could not start; the process must terminate with the
    /// carried diagnostic.
    Fatal(&'static str),
}

/// The plugins the shell registers, in the order it registers them.
pub open spec fn plugin_order() -> Seq<Plugin> {
    seq![Plugin::FilesystemAccess, Plugin::Opener]
}

/// The diagnostic the process reports when the framework cannot start.
pub open spec fn failure_diagnostic() -> Seq<char> {
    "error while running tauri application"@
}

/// Tracks how far the boot sequence has progressed.
pub struct Startup {
    registered: Vec<Plugin>,
}

impl View for Startup {
    type V = Seq<Plugin>;

    /// The plugins registered so far, oldest first.
    closed spec fn view(&self) -> Seq<Plugin> {
        self.registered@
    }
}

impl Startup {
    /// The registered plugins are a prefix of the prescribed order.
    pub open spec fn wf(&self) -> bool {
        &&& self@.len() <= plugin_order().len()
        &&& self@ == plugin_order().take(self@.len() as int)
    }

    /// A boot sequence that has not registered anything yet.
    pub fn new() -> (s: Startup)
        ensures
            s.wf(),
            s@.len() == 0,
    {
        let s = Startup { registered: Vec::new() };
        proof {
            assert(s@ =~= plugin_order().take(0));
        }
        s
    }

    /// Decides the next boot step and, for a registration, records it as
    /// performed: the driver must carry each returned step out before
    /// asking again. Once every plugin is registered the answer is `Run`,
    /// and stays `Run`.
    pub fn next(&mut self) -> (step: Step)
        requires
            old(self).wf(),
        ensures
            final(self).wf(),
            old(self)@.len() < plugin_order().len() ==> {
                &&& step == Step::Register(plugin_order()[old(self)@.len() as int])
                &&& final(self)@ == old(self)@.push(plugin_order()[old(self)@.len() as int])
            },
            old(self)@.len() >= plugin_order().len() ==> {
                &&& step == Step::Run
                &&& final(self)@ == old(self)@
            },
    {
        let n: usize = self.registered.len();
        if n == 0 {
            self.registered.push(Plugin::FilesystemAccess);
            proof {
                assert(self@ =~= plugin_order().take(1));
            }
            Step::Register(Plugin::FilesystemAccess)
        } else if n == 1 {
            self.registered.push(Plugin::Opener);
            proof {
                assert(self@ =~= plugin_order().take(2));
            }
            Step::Register(Plugin::Opener)
        } else {
            Step::Run
        }
    }

    /// The plugins registered so far, oldest first.
    pub fn registered(&self) -> (r: &Vec<Plugin>)
        ensures
            r@ == self@,
    {
        &self.registered
    }
}

/// Decides how the process ends from whether the framework's run loop
/// started and returned normally.
pub fn conclude(run_ok: bool) -> (o: Outcome)
    ensures
        run_ok <==> o == Outcome::Exited,
        !run_ok ==> (o matches Outcome::Fatal(m) && m@ == failure_diagnostic()),
{
    if run_ok {
        Outcome::Exited
    } else {
        Outcome::Fatal("error while running tauri application")
    }
}

/// Law: when the boot sequence reaches the point where `next` directs the
/// driver to start the run loop, every plugin — filesystem access and the
/// opener — has already been registered.
pub proof fn lemma_all_plugins_before_run(s: Startup)
    requires
        s.wf(),
        s@.len() >= plugin_order().len(),
    ensures
        s@ == plugin_order(),
        s@.contains(Plugin::FilesystemAccess),
        s@.contains(Plugin::Opener),
{
    assert(s@ =~= plugin_order());
    assert(s@[0] == Plugin::FilesystemAccess);
    assert(s@[1] == Plugin::Opener);
}

} // verus!
