//! The check of one image against a table of registries, one after another.
//!
//! A session names the request to send; the caller sends it and hands the
//! reply back. Whatever the replies are, every registry of the table is
//! reported once, in the table's order.

use crate::check::{
    begin, begin_spec, resume, resume_spec, Pending, Reply, ReplyView, Request, RequestView, Step,
    StepView, Verdict,
};
use crate::image::{parse_image_name, repo_of, tag_of};
use crate::registry::{table_view, Registry, RegistryView};
use crate::report::{is_report_line, report_line};
use vstd::prelude::*;

verus! {

/// The verdict on one registry of the table.
#[derive(Clone, Copy, Debug, PartialEq, Eq)]
pub struct Report {
    /// The registry's place in the table.
    pub index: usize,
    pub verdict: Verdict,
}

/// A report as a mathematical value.
pub ghost struct ReportView {
    pub index: nat,
    pub verdict: Verdict,
}

impl View for Report {
    type V = ReportView;

    open spec fn view(&self) -> ReportView {
        ReportView { index: self.index as nat, verdict: self.verdict }
    }
}

/// What a session asks of its caller: a report to show, where a check has
/// ended, and the next request to send, until the table is done.
#[derive(Clone, Debug, PartialEq, Eq)]
pub struct Turn {
    pub report: Option<Report>,
    pub request: Option<Request>,
}

/// A turn as a mathematical value.
pub ghost struct TurnView {
    pub report: Option<ReportView>,
    pub request: Option<RequestView>,
}

impl View for Turn {
    type V = TurnView;

    open spec fn view(&self) -> TurnView {
        TurnView {
            report: match self.report {
                Some(r) => Some(r@),
                None => None,
            },
            request: request_view(self.request),
        }
    }
}

/// An optional request as a mathematical value.
pub open spec fn request_view(request: Option<Request>) -> Option<RequestView> {
    match request {
        Some(r) => Some(r@),
        None => None,
    }
}

/// A session as a mathematical value: the image, the table, the place of the
/// registry that is being checked, and the request whose reply is awaited.
pub ghost struct SessionView {
    pub repo: Seq<char>,
    pub tag: Seq<char>,
    pub protocol: Seq<char>,
    pub registries: Seq<RegistryView>,
    pub current: nat,
    pub pending: Pending,
}

impl SessionView {
    /// No registry is left to check.
    pub open spec fn finished(self) -> bool {
        self.current >= self.registries.len()
    }

    /// The session once it has turned to the registry at `index`, and the
    /// first request of that registry's check; no request past the table's
    /// end.
    pub open spec fn enter(self, index: nat) -> (SessionView, Option<RequestView>) {
        if index < self.registries.len() {
            let first = begin_spec(self.registries[index as int], self.repo, self.tag, self.protocol);
            (SessionView { current: index, pending: first.0, ..self }, Some(first.1))
        } else {
            (SessionView { current: index, ..self }, None)
        }
    }

    /// The session after a move of the current check. A request keeps the
    /// session at its registry. A verdict is reported for that registry, and
    /// the session turns to the next one. A finished session stays as it is.
    pub open spec fn apply(self, step: StepView) -> (SessionView, TurnView) {
        if self.finished() {
            (self, TurnView { report: None, request: None })
        } else {
            match step {
                StepView::Ask(pending, request) => (
                    SessionView { pending, ..self },
                    TurnView { report: None, request: Some(request) },
                ),
                StepView::Done(verdict) => {
                    let next = self.enter(self.current + 1);
                    (
                        next.0,
                        TurnView {
                            report: Some(ReportView { index: self.current, verdict }),
                            request: next.1,
                        },
                    )
                },
            }
        }
    }

    /// The move of the current check that follows `reply`.
    pub open spec fn step_after(self, reply: ReplyView) -> StepView
        recommends
            !self.finished(),
    {
        resume_spec(
            self.registries[self.current as int],
            self.repo,
            self.tag,
            self.protocol,
            self.pending,
            reply,
        )
    }

    /// The session after the reply to its last request.
    pub open spec fn advance(self, reply: ReplyView) -> (SessionView, TurnView) {
        self.apply(self.step_after(reply))
    }

    /// The number of replies after which the session is finished at the
    /// latest: two for each registry that is left, one less where the current
    /// one has its token already.
    pub open spec fn budget(self) -> nat {
        if self.finished() {
            0
        } else {
            let left = (self.registries.len() - self.current) as nat;
            match self.pending {
                Pending::Token => 2 * left,
                Pending::Manifest => (2 * left - 1) as nat,
            }
        }
    }
}

/// The session that checks `image` against `table`, and its first turn.
pub open spec fn start_spec(
    image: Seq<char>,
    table: Seq<RegistryView>,
    protocol: Seq<char>,
) -> (SessionView, TurnView) {
    let fresh = SessionView {
        repo: repo_of(image),
        tag: tag_of(image),
        protocol,
        registries: table,
        current: 0,
        pending: Pending::Manifest,
    };
    let first = fresh.enter(0);
    (first.0, TurnView { report: None, request: first.1 })
}

/// The session after a sequence of replies.
pub open spec fn run(s: SessionView, replies: Seq<ReplyView>) -> SessionView
    decreases replies.len(),
{
    if replies.len() == 0 {
        s
    } else {
        run(s.advance(replies[0]).0, replies.drop_first())
    }
}

/// The reports that a sequence of replies brings, in their order.
pub open spec fn reports(s: SessionView, replies: Seq<ReplyView>) -> Seq<ReportView>
    decreases replies.len(),
{
    if replies.len() == 0 {
        Seq::empty()
    } else {
        let next = s.advance(replies[0]);
        let head = match next.1.report {
            Some(r) => seq![r],
            None => Seq::empty(),
        };
        head + reports(next.0, replies.drop_first())
    }
}

/// A turn names a request exactly as long as a registry is left to check,
/// and a reply never takes the session back in the table.
pub proof fn lemma_request_until_finished(s: SessionView, reply: ReplyView)
    requires
        !s.finished(),
    ensures
        s.advance(reply).1.request is Some <==> !s.advance(reply).0.finished(),
        s.advance(reply).0.registries == s.registries,
        s.advance(reply).1.report is Some ==> s.advance(reply).0.current == s.current + 1,
        s.advance(reply).1.report is None ==> s.advance(reply).0.current == s.current,
{
}

/// Every reply brings an unfinished session nearer to its end.
pub proof fn lemma_advance_uses_budget(s: SessionView, reply: ReplyView)
    requires
        !s.finished(),
    ensures
        s.advance(reply).0.budget() < s.budget(),
{
}

/// Whatever the replies are, the reports come one for each registry from the
/// current one on, in the table's order and without a gap, and the session
/// stands behind the last registry that was reported.
pub proof fn lemma_reports_follow_table(s: SessionView, replies: Seq<ReplyView>)
    requires
        s.current <= s.registries.len(),
    ensures
        run(s, replies).registries == s.registries,
        run(s, replies).current == s.current + reports(s, replies).len(),
        run(s, replies).current <= s.registries.len(),
        forall|j: int|
            0 <= j < reports(s, replies).len() ==> (#[trigger] reports(s, replies)[j]).index
                == s.current + j,
    decreases replies.len(),
{
    if replies.len() > 0 {
        let next = s.advance(replies[0]);
        lemma_reports_follow_table(next.0, replies.drop_first());
    }
}

/// A session is finished once it has had as many replies as its budget
/// counts, whatever they are.
pub proof fn lemma_run_finishes(s: SessionView, replies: Seq<ReplyView>)
    requires
        replies.len() >= s.budget(),
    ensures
        run(s, replies).finished(),
    decreases replies.len(),
{
    if replies.len() > 0 {
        let next = s.advance(replies[0]);
        if !s.finished() {
            lemma_advance_uses_budget(s, replies[0]);
        }
        lemma_run_finishes(next.0, replies.drop_first());
    }
}

/// A session that has just been started is finished after two replies for
/// each registry of the table, whatever the replies are.
pub proof fn lemma_session_ends(
    image: Seq<char>,
    table: Seq<RegistryView>,
    protocol: Seq<char>,
    replies: Seq<ReplyView>,
)
    requires
        replies.len() >= 2 * table.len(),
    ensures
        run(start_spec(image, table, protocol).0, replies).finished(),
{
    lemma_run_finishes(start_spec(image, table, protocol).0, replies);
}

/// Every registry of the table is reported exactly once, in the table's
/// order, whatever the replies are: when a session has come to its end, no
/// outcome at one registry has ended it early or left another registry out.
pub proof fn lemma_every_registry_reported_once(
    image: Seq<char>,
    table: Seq<RegistryView>,
    protocol: Seq<char>,
    replies: Seq<ReplyView>,
)
    requires
        run(start_spec(image, table, protocol).0, replies).finished(),
    ensures
        reports(start_spec(image, table, protocol).0, replies).len() == table.len(),
        forall|j: int|
            0 <= j < table.len() ==> (#[trigger] reports(
                start_spec(image, table, protocol).0,
                replies,
            )[j]).index == j,
{
    lemma_reports_follow_table(start_spec(image, table, protocol).0, replies);
}

/// A session that checks one image against a table of registries.
#[derive(Debug)]
pub struct Session {
    repo: String,
    tag: String,
    protocol: String,
    registries: Vec<Registry>,
    current: usize,
    pending: Pending,
}

impl View for Session {
    type V = SessionView;

    closed spec fn view(&self) -> SessionView {
        SessionView {
            repo: self.repo@,
            tag: self.tag@,
            protocol: self.protocol@,
            registries: table_view(self.registries@),
            current: self.current as nat,
            pending: self.pending,
        }
    }
}

impl Session {
    /// Splits `image` into repository and tag and turns to the first registry
    /// of the table. The turn holds the first request, or none for an empty
    /// table.
    pub fn start(image: &str, registries: Vec<Registry>, protocol: &str) -> (r: (Session, Turn))
        ensures
            (r.0@, r.1@) == start_spec(image@, table_view(registries@), protocol@),
    {
        let parts = parse_image_name(image);
        let mut session = Session {
            repo: String::from_str(parts.0),
            tag: String::from_str(parts.1),
            protocol: String::from_str(protocol),
            registries,
            current: 0,
            pending: Pending::Manifest,
        };
        let request = session.enter(0);
        (session, Turn { report: None, request })
    }

    /// Turns to the registry at `index` and gives the first request of its
    /// check.
    fn enter(&mut self, index: usize) -> (request: Option<Request>)
        ensures
            final(self)@ == old(self)@.enter(index as nat).0,
            request_view(request) == old(self)@.enter(index as nat).1,
    {
        self.current = index;
        if index < self.registries.len() {
            let first = begin(
                &self.registries[index],
                self.repo.as_str(),
                self.tag.as_str(),
                self.protocol.as_str(),
            );
            self.pending = first.0;
            Some(first.1)
        } else {
            None
        }
    }

    /// Takes a move of the current check: a request is handed on, a verdict
    /// is reported and the next registry's check begins.
    pub fn apply(&mut self, step: Step) -> (turn: Turn)
        ensures
            (final(self)@, turn@) == old(self)@.apply(step@),
    {
        if self.current >= self.registries.len() {
            return Turn { report: None, request: None };
        }
        match step {
            Step::Ask(pending, request) => {
                self.pending = pending;
                Turn { report: None, request: Some(request) }
            },
            Step::Done(verdict) => {
                let report = Report { index: self.current, verdict };
                let request = self.enter(self.current + 1);
                Turn { report: Some(report), request }
            },
        }
    }

    /// Takes the reply to the last request. The turn holds the report where
    /// the reply ended a registry's check, and the next request until the
    /// table is done.
    pub fn advance(&mut self, reply: &Reply) -> (turn: Turn)
        ensures
            (final(self)@, turn@) == old(self)@.advance(reply@),
    {
        if self.current >= self.registries.len() {
            return Turn { report: None, request: None };
        }
        let step = resume(
            &self.registries[self.current],
            self.repo.as_str(),
            self.tag.as_str(),
            self.protocol.as_str(),
            self.pending,
            reply,
        );
        self.apply(step)
    }

    /// Whether no registry is left to check.
    pub fn is_finished(&self) -> (r: bool)
        ensures
            r == self@.finished(),
    {
        self.current >= self.registries.len()
    }

    /// The place in the table of the registry that is being checked; the
    /// table's length once the session is finished.
    pub fn current(&self) -> (r: usize)
        ensures
            r == self@.current,
    {
        self.current
    }

    /// The request whose reply is awaited.
    pub fn pending(&self) -> (r: Pending)
        ensures
            r == self@.pending,
    {
        self.pending
    }

    /// The repository of the image.
    pub fn repo(&self) -> (r: &str)
        ensures
            r@ == self@.repo,
    {
        self.repo.as_str()
    }

    /// The tag of the image.
    pub fn tag(&self) -> (r: &str)
        ensures
            r@ == self@.tag,
    {
        self.tag.as_str()
    }

    /// The line that shows a report: none for a report on a place that the
    /// table does not have.
    pub fn line(&self, report: &Report) -> (line: Option<String>)
        ensures
            line is Some <==> report.index < self@.registries.len(),
            line matches Some(l) ==> is_report_line(
                l@,
                report.verdict,
                self@.repo,
                self@.tag,
                self@.registries[report.index as int].host,
            ),
    {
        if report.index < self.registries.len() {
            Some(
                report_line(
                    report.verdict,
                    self.repo.as_str(),
                    self.tag.as_str(),
                    self.registries[report.index].host.as_str(),
                ),
            )
        } else {
            None
        }
    }
}

} // verus!
