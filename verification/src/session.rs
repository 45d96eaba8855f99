//! The reopen protocol: a session counter incremented once per reopen
//! command, and the model of the window set that the host keeps open.
//! The host's part — actually creating and closing windows — is driven
//! from the plans and outcomes below; a creation attempt either succeeds
//! or fails, and a batch aborts on its first failure.

use vstd::prelude::*;
use crate::windows::{WindowConfig, wf_window, window_config, reopen_plan};

verus! {

/// The message every window-creation failure surfaces as.
pub open spec fn creation_error() -> Seq<char> {
    seq![
        'C', 'o', 'u', 'l', 'd', 'n', '\'', 't', ' ', 'l', 'a', 'u', 'n', 'c', 'h', ' ', 'w',
        'i', 'n', 'd', 'o', 'w',
    ]
}

fn creation_error_string() -> (s: String)
    ensures
        s@ == creation_error(),
{
    proof {
        reveal_strlit("Couldn't launch window");
    }
    let s = "Couldn't launch window".to_owned();
    assert(s@ =~= creation_error());
    s
}

/// The window set is exactly the first `n` windows of generation `g`,
/// in open order (all six when `n == 6`).
pub open spec fn windows_are(ws: Seq<WindowConfig>, g: nat, n: int) -> bool {
    &&& ws.len() == n
    &&& forall|i: int| 0 <= i < n ==> wf_window(ws[i], g, i)
}

/// One observation of the session counter by a reopen command: the
/// command increments the counter and observes the new value.
pub open spec fn counter_step(before: nat, observed: nat, after: nat) -> bool {
    observed == before + 1 && after == observed
}

/// The application model: the session counter and the windows currently
/// open, each pinned to its generation and index.
pub struct WindowSystem {
    pub counter: u32,
    pub open_windows: Vec<WindowConfig>,
}

impl WindowSystem {
    /// Startup: the full window set of generation 0 is opened once,
    /// before any command is received.
    pub fn startup() -> (s: Self)
        ensures
            s.counter == 0,
            windows_are(s.open_windows@, 0, 6),
    {
        WindowSystem { counter: 0, open_windows: reopen_plan(0) }
    }

    /// The generation prefix that the next reopen command will observe.
    pub fn next_generation(&self) -> (g: u32)
        requires
            self.counter < u32::MAX,
        ensures
            g == self.counter + 1,
    {
        self.counter + 1
    }

    /// The close step's decision: every currently open window is to be
    /// closed, listed by identity in open order.
    pub fn close_plan(&self) -> (ids: Vec<String>)
        ensures
            ids@.len() == self.open_windows@.len(),
            forall|i: int|
                0 <= i < ids@.len() ==> ids@[i]@ == self.open_windows@[i].identity@,
    {
        let mut ids: Vec<String> = Vec::new();
        let mut i: usize = 0;
        while i < self.open_windows.len()
            invariant
                i <= self.open_windows@.len(),
                ids@.len() == i,
                forall|j: int| 0 <= j < i ==> ids@[j]@ == self.open_windows@[j].identity@,
            decreases self.open_windows@.len() - i,
        {
            ids.push(self.open_windows[i].identity.clone());
            i = i + 1;
        }
        ids
    }

    /// The close step: afterwards no window of the application remains
    /// open; the counter is untouched.
    pub fn close_all(&mut self)
        ensures
            final(self).counter == old(self).counter,
            final(self).open_windows@.len() == 0,
    {
        self.open_windows = Vec::new();
    }

    /// The open step for generation `generation`. Creations are attempted
    /// in label order a..f and the batch aborts on its first failure;
    /// `first_failure` is the index of the first attempt the host fails,
    /// if any. On success all six windows of the generation are open and
    /// `Ok` is returned; on failure exactly the windows before the failing
    /// index are open and the creation error is returned.
    pub fn open_batch(&mut self, generation: u32, first_failure: Option<usize>) -> (r: Result<
        (),
        String,
    >)
        requires
            old(self).open_windows@.len() == 0,
            first_failure matches Some(i) ==> i < 6,
        ensures
            final(self).counter == old(self).counter,
            match first_failure {
                None => r is Ok && windows_are(final(self).open_windows@, generation as nat, 6),
                Some(i) => (r matches Err(m) && m@ == creation_error()) && windows_are(
                    final(self).open_windows@,
                    generation as nat,
                    i as int,
                ),
            },
    {
        let limit: usize = match first_failure {
            None => 6,
            Some(i) => i,
        };
        let mut k: usize = 0;
        while k < limit
            invariant
                limit <= 6,
                k <= limit,
                self.counter == old(self).counter,
                windows_are(self.open_windows@, generation as nat, k as int),
            decreases limit - k,
        {
            let w = window_config(generation, k);
            self.open_windows.push(w);
            k = k + 1;
        }
        match first_failure {
            None => Ok(()),
            Some(_) => Err(creation_error_string()),
        }
    }

    /// The reopen command: increments the session counter under exclusive
    /// access, closes every open window, then reopens the six windows of
    /// the new generation, aborting the batch on its first creation
    /// failure (`first_failure`, if any). The counter moves to the
    /// observed generation whether or not the batch succeeds.
    pub fn reopen(&mut self, first_failure: Option<usize>) -> (r: Result<(), String>)
        requires
            old(self).counter < u32::MAX,
            first_failure matches Some(i) ==> i < 6,
        ensures
            final(self).counter == old(self).counter + 1,
            counter_step(
                old(self).counter as nat,
                (old(self).counter + 1) as nat,
                final(self).counter as nat,
            ),
            match first_failure {
                None => r is Ok && windows_are(
                    final(self).open_windows@,
                    (old(self).counter + 1) as nat,
                    6,
                ),
                Some(i) => (r matches Err(m) && m@ == creation_error()) && windows_are(
                    final(self).open_windows@,
                    (old(self).counter + 1) as nat,
                    i as int,
                ),
            },
    {
        self.counter = self.counter + 1;
        let generation = self.counter;
        self.close_all();
        self.open_batch(generation, first_failure)
    }
}

} // verus!
