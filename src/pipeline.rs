use vstd::prelude::*;

use crate::json::ApiError;
use crate::lookup::{is_running, running_build_number, unquoted, Build};
use crate::url::{api_url, api_url_spec};

verus! {

/// The build number that names the latest build in the server's API.
pub const LATEST: &'static str = "latest";

/// The HTTP methods that the relay sends to the CI server.
#[derive(PartialEq, Eq, Structural, Clone, Copy, Debug)]
pub enum Method {
    Get,
    Delete,
    Post,
}

/// One request to the CI server.
pub struct Request {
    pub method: Method,
    pub url: String,
}

/// Where one webhook call stands.
#[derive(PartialEq, Eq, Structural, Clone, Copy, Debug)]
pub enum Stage {
    /// Nothing was sent yet.
    Start,
    /// The latest build was asked for.
    AwaitLatest,
    /// The running build is being cancelled.
    AwaitCancel,
    /// A new build was asked for.
    AwaitTrigger,
    /// The answer to the trigger was handed back.
    Done,
}

/// One webhook call: optionally cancel the running build of a repository, then
/// trigger a new one. The caller performs each request that a step returns and
/// hands the outcome to the next step.
pub struct Webhook {
    pub base: String,
    pub org: String,
    pub repo: String,
    pub cancel_running: bool,
    pub stage: Stage,
    /// The requests sent so far, as method and address.
    pub sent: Ghost<Seq<(Method, Seq<char>)>>,
}

impl Webhook {
    /// The address of the latest build of the repository.
    pub open spec fn latest_url(&self) -> Seq<char> {
        api_url_spec(self.base@, self.org@, self.repo@, LATEST@)
    }

    /// The address that triggers a new build of the repository.
    pub open spec fn trigger_url(&self) -> Seq<char> {
        api_url_spec(self.base@, self.org@, self.repo@, Seq::empty())
    }

    /// The address of build `num` of the repository.
    pub open spec fn build_url(&self, num: Seq<char>) -> Seq<char> {
        api_url_spec(self.base@, self.org@, self.repo@, num)
    }

    /// What has been sent at each stage: the lookup only when cancelling was
    /// asked for, a cancel only right after the lookup, the trigger last.
    pub open spec fn wf(&self) -> bool {
        let h = self.sent@;
        match self.stage {
            Stage::Start => h.len() == 0,
            Stage::AwaitLatest => {
                &&& self.cancel_running
                &&& h.len() == 1
                &&& h[0] == (Method::Get, self.latest_url())
            },
            Stage::AwaitCancel => {
                &&& self.cancel_running
                &&& h.len() == 2
                &&& h[0] == (Method::Get, self.latest_url())
                &&& h[1].0 == Method::Delete
                &&& exists|n: Seq<char>| h[1].1 == #[trigger] self.build_url(n)
            },
            Stage::AwaitTrigger | Stage::Done => {
                &&& h.len() >= 1
                &&& h.last() == (Method::Post, self.trigger_url())
                &&& if self.cancel_running {
                    &&& h[0] == (Method::Get, self.latest_url())
                    &&& (h.len() == 2 || (h.len() == 3 && h[1].0 == Method::Delete && exists|n: Seq<char>|
                        h[1].1 == #[trigger] self.build_url(n)))
                } else {
                    h.len() == 1
                }
            },
        }
    }

    /// A webhook call on `org/repo` against the server at `base`.
    pub fn new(base: &str, org: &str, repo: &str, cancel_running: bool) -> (r: Webhook)
        ensures
            r.wf(),
            r.base@ == base@,
            r.org@ == org@,
            r.repo@ == repo@,
            r.cancel_running == cancel_running,
            r.stage == Stage::Start,
    {
        Webhook {
            base: base.to_owned(),
            org: org.to_owned(),
            repo: repo.to_owned(),
            cancel_running,
            stage: Stage::Start,
            sent: Ghost(Seq::empty()),
        }
    }

    /// The first request: the latest build when cancelling was asked for, else
    /// the trigger itself.
    pub fn start(&mut self) -> (r: Request)
        requires
            old(self).wf(),
            old(self).stage == Stage::Start,
        ensures
            final(self).wf(),
            final(self).base == old(self).base,
            final(self).org == old(self).org,
            final(self).repo == old(self).repo,
            final(self).cancel_running == old(self).cancel_running,
            old(self).cancel_running ==> r.method == Method::Get && r.url@ == old(self).latest_url()
                && final(self).stage == Stage::AwaitLatest,
            !old(self).cancel_running ==> r.method == Method::Post && r.url@ == old(self).trigger_url()
                && final(self).stage == Stage::AwaitTrigger,
            final(self).sent@ == old(self).sent@.push((r.method, r.url@)),
    {
        if self.cancel_running {
            let url = api_url(self.base.as_str(), self.org.as_str(), self.repo.as_str(), LATEST);
            self.stage = Stage::AwaitLatest;
            self.sent = Ghost(self.sent@.push((Method::Get, url@)));
            Request { method: Method::Get, url }
        } else {
            self.trigger()
        }
    }

    /// Asks for a new build.
    fn trigger(&mut self) -> (r: Request)
        requires
            old(self).stage != Stage::Done,
            old(self).sent@.len() <= 2,
        ensures
            final(self).base == old(self).base,
            final(self).org == old(self).org,
            final(self).repo == old(self).repo,
            final(self).cancel_running == old(self).cancel_running,
            final(self).stage == Stage::AwaitTrigger,
            r.method == Method::Post,
            r.url@ == old(self).trigger_url(),
            final(self).sent@ == old(self).sent@.push((r.method, r.url@)),
    {
        let url = api_url(self.base.as_str(), self.org.as_str(), self.repo.as_str(), "");
        proof {
            reveal_strlit("");
        }
        self.stage = Stage::AwaitTrigger;
        self.sent = Ghost(self.sent@.push((Method::Post, url@)));
        Request { method: Method::Post, url }
    }

    /// After the lookup: cancel the latest build when it runs, else trigger.
    /// A lookup that failed cancels nothing and does not stop the trigger.
    pub fn on_latest(&mut self, latest: &Result<Option<Build>, ApiError>) -> (r: Request)
        requires
            old(self).wf(),
            old(self).stage == Stage::AwaitLatest,
        ensures
            final(self).wf(),
            final(self).base == old(self).base,
            final(self).org == old(self).org,
            final(self).repo == old(self).repo,
            final(self).cancel_running == old(self).cancel_running,
            final(self).sent@ == old(self).sent@.push((r.method, r.url@)),
            ({
                let runs = latest is Ok && latest->Ok_0 is Some && is_running(
                    latest->Ok_0->Some_0.status@,
                );
                &&& runs ==> r.method == Method::Delete && r.url@ == old(self).build_url(
                    unquoted(latest->Ok_0->Some_0.number@),
                ) && final(self).stage == Stage::AwaitCancel
                &&& !runs ==> r.method == Method::Post && r.url@ == old(self).trigger_url()
                    && final(self).stage == Stage::AwaitTrigger
            }),
    {
        match running_build_number(latest) {
            Some(num) => {
                let url = api_url(self.base.as_str(), self.org.as_str(), self.repo.as_str(), num.as_str());
                self.stage = Stage::AwaitCancel;
                self.sent = Ghost(self.sent@.push((Method::Delete, url@)));
                assert(self.sent@[1].1 == self.build_url(num@));
                Request { method: Method::Delete, url }
            },
            None => self.trigger(),
        }
    }

    /// After the cancel, whatever became of it: trigger.
    pub fn on_cancelled(&mut self) -> (r: Request)
        requires
            old(self).wf(),
            old(self).stage == Stage::AwaitCancel,
        ensures
            final(self).wf(),
            final(self).base == old(self).base,
            final(self).org == old(self).org,
            final(self).repo == old(self).repo,
            final(self).cancel_running == old(self).cancel_running,
            final(self).stage == Stage::AwaitTrigger,
            r.method == Method::Post,
            r.url@ == old(self).trigger_url(),
            final(self).sent@ == old(self).sent@.push((r.method, r.url@)),
    {
        let ghost n = choose|n: Seq<char>| self.sent@[1].1 == self.build_url(n);
        let r = self.trigger();
        assert(self.sent@[1].1 == self.build_url(n));
        r
    }

    /// After the trigger: its outcome is the answer of the webhook call.
    pub fn on_triggered(&mut self, res: Result<serde_json::Value, ApiError>) -> (r: Result<
        serde_json::Value,
        ApiError,
    >)
        requires
            old(self).wf(),
            old(self).stage == Stage::AwaitTrigger,
        ensures
            final(self).wf(),
            final(self).base == old(self).base,
            final(self).org == old(self).org,
            final(self).repo == old(self).repo,
            final(self).cancel_running == old(self).cancel_running,
            final(self).sent == old(self).sent,
            final(self).stage == Stage::Done,
            r == res,
    {
        let ghost h = self.sent@;
        let ghost n = choose|n: Seq<char>| h.len() == 3 && h[1].1 == self.build_url(n);
        self.stage = Stage::Done;
        assert(h.len() == 3 ==> self.sent@[1].1 == self.build_url(n));
        res
    }
}

/// Without `cancel_running`, the trigger is the only request a call sends: the
/// latest build is never looked up and nothing is cancelled.
pub proof fn lemma_trigger_only_without_cancel(w: Webhook)
    requires
        w.wf(),
        !w.cancel_running,
    ensures
        w.sent@.len() <= 1,
        forall|i: int| 0 <= i < w.sent@.len() ==> w.sent@[i] == (Method::Post, w.trigger_url()),
{
}

/// With `cancel_running`, a finished call looked up the latest build first and
/// triggered last; a cancel, if one was sent, came in between.
pub proof fn lemma_cancel_precedes_trigger(w: Webhook)
    requires
        w.wf(),
        w.cancel_running,
        w.stage == Stage::Done,
    ensures
        w.sent@.len() == 2 || w.sent@.len() == 3,
        w.sent@[0] == (Method::Get, w.latest_url()),
        w.sent@[w.sent@.len() - 1] == (Method::Post, w.trigger_url()),
        forall|i: int| 0 <= i < w.sent@.len() && w.sent@[i].0 == Method::Delete ==> i == 1,
        w.sent@.len() == 3 ==> w.sent@[1].0 == Method::Delete && exists|n: Seq<char>|
            w.sent@[1].1 == #[trigger] w.build_url(n),
{
}

} // verus!
