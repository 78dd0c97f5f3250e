//! `CONSTRAINTBAR`: asks whether to show, hide or reset the constraint bars
//! of the objects it was started on, then hands those objects to the
//! command that does it.

use vstd::prelude::*;
use crate::modules::parametric::command::{CmdOption, CmdResult};
use crate::modules::parametric::reference::{keyword, spec_keyword, Handle};
use crate::text::{chars_of, owned, seq_eq};

verus! {

/// Interactive front end of the constraint bar options.
pub struct ConstraintBarOptionCommand {
    handles: Vec<Handle>,
}

/// The command an option keyword starts, if `text` is one.
pub open spec fn spec_option_command(text: Seq<char>) -> Option<Seq<char>> {
    let k = spec_keyword(text);
    if k == "S"@ || k == "SHOW"@ {
        Some("GCSHOW"@)
    } else if k == "H"@ || k == "HIDE"@ {
        Some("GCHIDE"@)
    } else if k == "R"@ || k == "RESET"@ {
        Some("CONSTRAINTBAR_RESET"@)
    } else {
        None
    }
}

/// `r` starts `command` on `handles`.
pub open spec fn is_relaunch(r: CmdResult, command: Seq<char>, handles: Seq<Handle>) -> bool {
    r matches CmdResult::Relaunch(name, hs) && name@ == command && hs@ == handles
}

impl ConstraintBarOptionCommand {
    /// The objects the command still holds.
    pub closed spec fn handles(&self) -> Seq<Handle> {
        self.handles@
    }

    pub fn new(handles: Vec<Handle>) -> (c: Self)
        ensures
            c.handles() == handles@,
    {
        ConstraintBarOptionCommand { handles }
    }

    /// Hands the objects over to `command`; they leave this command.
    fn finish(&mut self, command: &str) -> (r: CmdResult)
        ensures
            is_relaunch(r, command@, old(self).handles()),
            final(self).handles() == Seq::<Handle>::empty(),
    {
        let mut handles = Vec::new();
        std::mem::swap(&mut handles, &mut self.handles);
        CmdResult::Relaunch(owned(command), handles)
    }

    pub fn name(&self) -> (n: &'static str)
        ensures
            n@ == "CONSTRAINTBAR"@,
    {
        "CONSTRAINTBAR"
    }

    pub fn prompt(&self) -> (p: String)
        ensures
            p@ == "CONSTRAINTBAR  Enter an option [Show/Hide/Reset] <Show>:"@,
    {
        owned("CONSTRAINTBAR  Enter an option [Show/Hide/Reset] <Show>:")
    }

    pub fn options(&self) -> (o: Vec<CmdOption>)
        ensures
            o@.len() == 3,
            o@[0].label@ == "Show"@ && o@[0].keyword@ == "S"@,
            o@[1].label@ == "Hide"@ && o@[1].keyword@ == "H"@,
            o@[2].label@ == "Reset"@ && o@[2].keyword@ == "R"@,
    {
        let mut o = Vec::new();
        o.push(CmdOption::new("Show", "S"));
        o.push(CmdOption::new("Hide", "H"));
        o.push(CmdOption::new("Reset", "R"));
        o
    }

    pub fn wants_text_input(&self) -> (r: bool)
        ensures
            r,
    {
        true
    }

    /// `S`/`SHOW`, `H`/`HIDE` or `R`/`RESET` starts the matching command on
    /// the objects; any other text is not a keyword of this command.
    pub fn on_text_input(&mut self, text: &str) -> (r: Option<CmdResult>)
        ensures
            match spec_option_command(text@) {
                Some(command) => r matches Some(x) && is_relaunch(x, command, old(self).handles())
                    && final(self).handles() == Seq::<Handle>::empty(),
                None => r is None && final(self).handles() == old(self).handles(),
            },
    {
        let k = keyword(text);
        if seq_eq(&k, &chars_of("S")) || seq_eq(&k, &chars_of("SHOW")) {
            Some(self.finish("GCSHOW"))
        } else if seq_eq(&k, &chars_of("H")) || seq_eq(&k, &chars_of("HIDE")) {
            Some(self.finish("GCHIDE"))
        } else if seq_eq(&k, &chars_of("R")) || seq_eq(&k, &chars_of("RESET")) {
            Some(self.finish("CONSTRAINTBAR_RESET"))
        } else {
            None
        }
    }

    /// A click is not an answer: the option is still asked for.
    pub fn on_point(&mut self, _point: glam::DVec3) -> (r: CmdResult)
        ensures
            r is NeedPoint,
            final(self).handles() == old(self).handles(),
    {
        CmdResult::NeedPoint
    }

    /// Enter takes the default option, Show.
    pub fn on_enter(&mut self) -> (r: CmdResult)
        ensures
            is_relaunch(r, "GCSHOW"@, old(self).handles()),
            final(self).handles() == Seq::<Handle>::empty(),
    {
        self.finish("GCSHOW")
    }

    pub fn on_escape(&mut self) -> (r: CmdResult)
        ensures
            r is Cancel,
            final(self).handles() == old(self).handles(),
    {
        CmdResult::Cancel
    }
}

} // verus!
