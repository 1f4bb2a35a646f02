//! The Nintendo 64 core's plugin bookkeeping: the four plugin roles in
//! their attachment order, the candidate library names per role, and
//! duplicate-free collection of search directories.

use vstd::prelude::*;

verus! {

/// The four resolved plugin libraries of a session.
pub struct PluginSet {
    pub video: String,
    pub audio: String,
    pub input: String,
    pub rsp: String,
}

impl PluginSet {
    /// The plugins with their role labels, in the order they are
    /// attached: video, audio, input, RSP.
    pub fn ordered(&self) -> (r: Vec<(&'static str, &String)>)
        ensures
            r@.len() == 4,
            r@[0].0@ == "video"@ && r@[0].1@ == self.video@,
            r@[1].0@ == "audio"@ && r@[1].1@ == self.audio@,
            r@[2].0@ == "input"@ && r@[2].1@ == self.input@,
            r@[3].0@ == "RSP"@ && r@[3].1@ == self.rsp@,
    {
        let mut r: Vec<(&'static str, &String)> = Vec::new();
        r.push(("video", &self.video));
        r.push(("audio", &self.audio));
        r.push(("input", &self.input));
        r.push(("RSP", &self.rsp));
        r
    }
}

/// Appends a directory to a search list only when it is not already
/// there, keeping the list duplicate-free in first-seen order.
pub fn push_unique(list: &mut Vec<String>, entry: String)
    ensures
        (exists|j: int| 0 <= j < old(list)@.len() && (#[trigger] old(list)@[j])@ == entry@)
            ==> final(list)@ == old(list)@,
        !(exists|j: int| 0 <= j < old(list)@.len() && (#[trigger] old(list)@[j])@ == entry@)
            ==> final(list)@ == old(list)@.push(entry),
{
    let n = list.len();
    let mut i: usize = 0;
    while i < n
        invariant
            n == list@.len(),
            i <= n,
            forall|j: int| 0 <= j < i ==> (#[trigger] list@[j])@ != entry@,
        decreases n - i,
    {
        if list[i] == entry {
            return ;
        }
        i = i + 1;
    }
    list.push(entry);
}

} // verus!
