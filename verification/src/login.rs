//! Signing in with a PIN: the page is polled every two seconds until the
//! PIN is claimed or five minutes have passed; the caller polls and sleeps,
//! this decides what each answer means and what the user is told.
use vstd::prelude::*;
use crate::text::owned;

verus! {

broadcast use vstd::string::group_string_axioms;

/// How many times the PIN is checked before giving up (every two seconds,
/// five minutes in all).
pub const PIN_POLL_LIMIT: u32 = 150;

/// The polls made so far.
pub struct PinPoll {
    pub polls: u32,
}

/// What to do after a poll.
pub enum PollStep {
    /// Sleep and poll again.
    Wait,
    /// The PIN was claimed: sign in with this token.
    SignedIn(String),
    /// Give up.
    TimedOut,
}

/// A poll step as plain values.
pub enum PollStepView {
    Wait,
    SignedIn(Seq<char>),
    TimedOut,
}

impl View for PollStep {
    type V = PollStepView;

    open spec fn view(&self) -> PollStepView {
        match self {
            PollStep::Wait => PollStepView::Wait,
            PollStep::SignedIn(t) => PollStepView::SignedIn(t@),
            PollStep::TimedOut => PollStepView::TimedOut,
        }
    }
}

/// After poll number `polls` (counting from one) answered `token`: a token
/// signs in; without one the polling goes on until the limit.
pub open spec fn spec_poll_step(polls: u32, token: Option<Seq<char>>) -> PollStepView {
    match token {
        Some(t) => PollStepView::SignedIn(t),
        None => if polls >= PIN_POLL_LIMIT { PollStepView::TimedOut } else { PollStepView::Wait },
    }
}

impl PinPoll {
    /// No poll made yet.
    pub fn new() -> (p: Self)
        ensures
            p.polls == 0,
    {
        PinPoll { polls: 0 }
    }

    /// Records a poll that answered `token` (none while the PIN is not
    /// claimed, or when the check failed) and says what to do next.
    pub fn record(&mut self, token: Option<String>) -> (s: PollStep)
        requires
            old(self).polls < PIN_POLL_LIMIT,
        ensures
            final(self).polls == old(self).polls + 1,
            s@ == spec_poll_step(final(self).polls, match token {
                Some(t) => Some(t@),
                None => None,
            }),
    {
        self.polls = self.polls + 1;
        match token {
            Some(t) => PollStep::SignedIn(t),
            None => if self.polls >= PIN_POLL_LIMIT { PollStep::TimedOut } else { PollStep::Wait },
        }
    }
}

/// The steps of `n` polls that find no token, from `polls` made.
pub open spec fn unanswered_steps(polls: u32, n: nat) -> Seq<PollStepView>
    decreases n,
{
    if n == 0 || polls >= PIN_POLL_LIMIT {
        Seq::empty()
    } else {
        seq![spec_poll_step((polls + 1) as u32, None)] + unanswered_steps((polls + 1) as u32, (n - 1) as nat)
    }
}

proof fn lemma_unanswered(polls: u32)
    requires
        polls <= PIN_POLL_LIMIT,
    ensures
        unanswered_steps(polls, (PIN_POLL_LIMIT - polls) as nat).len() == PIN_POLL_LIMIT - polls,
        forall|i: int| 0 <= i < PIN_POLL_LIMIT - polls - 1 ==> #[trigger] unanswered_steps(polls, (PIN_POLL_LIMIT - polls) as nat)[i] == PollStepView::Wait,
        polls < PIN_POLL_LIMIT ==> unanswered_steps(polls, (PIN_POLL_LIMIT - polls) as nat).last() == PollStepView::TimedOut,
    decreases PIN_POLL_LIMIT - polls,
{
    if polls < PIN_POLL_LIMIT {
        lemma_unanswered((polls + 1) as u32);
        let rest = unanswered_steps((polls + 1) as u32, (PIN_POLL_LIMIT - polls - 1) as nat);
        let all = unanswered_steps(polls, (PIN_POLL_LIMIT - polls) as nat);
        assert(all == seq![spec_poll_step((polls + 1) as u32, None)] + rest);
        assert forall|i: int| 0 <= i < PIN_POLL_LIMIT - polls - 1 implies #[trigger] all[i] == PollStepView::Wait by {
            if i > 0 {
                assert(all[i] == rest[i - 1]);
            }
        }
    }
}

/// Without an answer, polling waits through the first 149 polls and gives
/// up at the 150th: five minutes at one poll every two seconds.
pub proof fn law_polling_gives_up_after_the_limit()
    ensures
        unanswered_steps(0, PIN_POLL_LIMIT as nat).len() == PIN_POLL_LIMIT,
        forall|i: int| 0 <= i < PIN_POLL_LIMIT - 1 ==> #[trigger] unanswered_steps(0, PIN_POLL_LIMIT as nat)[i] == PollStepView::Wait,
        unanswered_steps(0, PIN_POLL_LIMIT as nat).last() == PollStepView::TimedOut,
{
    lemma_unanswered(0);
}

/// How a sign-in ended.
pub enum LoginOutcome {
    /// Signed in, and the servers of the account were found.
    Success,
    /// No answer in time.
    TimedOut,
    /// A request failed, with this message.
    Failed(String),
}

/// What the user is told when a sign-in ends.
pub fn login_status_text(outcome: &LoginOutcome) -> (r: String)
    ensures
        r@ == match outcome {
            LoginOutcome::Success => "Authentication successful!"@,
            LoginOutcome::TimedOut => "Authentication timed out. Please try again."@,
            LoginOutcome::Failed(m) => m@,
        },
{
    match outcome {
        LoginOutcome::Success => owned("Authentication successful!"),
        LoginOutcome::TimedOut => owned("Authentication timed out. Please try again."),
        LoginOutcome::Failed(m) => m.clone(),
    }
}

} // verus!
