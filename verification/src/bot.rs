//! The supervisor: it owns the shutdown flag and the managers, and judges
//! how their tasks ended.

use crate::lnd::lnd_manager::LndManager;
use std::sync::atomic::AtomicBool;
use std::sync::Arc;
use vstd::prelude::*;

verus! {

/// The supervisor of the managers. Every manager watches `kill_signal`.
#[derive(Debug)]
pub struct Bot {
    pub lnd_manager: LndManager,
    pub kill_signal: Arc<AtomicBool>,
}

/// How the task of one manager ended.
#[derive(Debug, Clone, PartialEq)]
pub enum TaskEnd {
    /// The manager saw the shutdown flag and stopped.
    Stopped,
    /// The task broke off: a defect, not a failed health check.
    Defect { message: String },
}

/// The mathematical value of a [`TaskEnd`].
pub enum TaskEndView {
    Stopped,
    Defect { message: Seq<char> },
}

impl View for TaskEnd {
    type V = TaskEndView;

    open spec fn view(&self) -> TaskEndView {
        match *self {
            TaskEnd::Stopped => TaskEndView::Stopped,
            TaskEnd::Defect { message } => TaskEndView::Defect { message: message@ },
        }
    }
}

/// A task that broke off: its place among the supervised tasks, and what
/// it left as a message.
#[derive(Debug, Clone, PartialEq)]
pub struct Defect {
    pub task: usize,
    pub message: String,
}

/// The mathematical value of a [`Defect`].
pub struct DefectView {
    pub task: int,
    pub message: Seq<char>,
}

impl View for Defect {
    type V = DefectView;

    open spec fn view(&self) -> DefectView {
        DefectView { task: self.task as int, message: self.message@ }
    }
}

/// The error of a run in which some task broke off: every such task, in the
/// order in which the tasks were launched.
#[derive(Debug, Clone, PartialEq)]
pub struct AggregateError {
    pub defects: Vec<Defect>,
}

impl View for AggregateError {
    type V = Seq<DefectView>;

    open spec fn view(&self) -> Seq<DefectView> {
        self.defects@.map_values(|d: Defect| d@)
    }
}

/// The tasks among `ends` that broke off, in order.
pub open spec fn defects_of(ends: Seq<TaskEndView>) -> Seq<DefectView>
    decreases ends.len(),
{
    if ends.len() == 0 {
        Seq::empty()
    } else {
        let earlier = defects_of(ends.drop_last());
        match ends.last() {
            TaskEndView::Stopped => earlier,
            TaskEndView::Defect { message } => earlier.push(
                DefectView { task: ends.len() - 1, message },
            ),
        }
    }
}

/// The verdict on a run: a success where no task broke off, else the tasks
/// that did.
pub open spec fn verdict_of(ends: Seq<TaskEndView>) -> Result<(), Seq<DefectView>> {
    if defects_of(ends).len() == 0 {
        Ok(())
    } else {
        Err(defects_of(ends))
    }
}

/// The views of the ends of a run.
pub open spec fn ends_view(ends: Seq<TaskEnd>) -> Seq<TaskEndView> {
    ends.map_values(|e: TaskEnd| e@)
}

/// The view of a verdict.
pub open spec fn verdict_view(verdict: Result<(), AggregateError>) -> Result<(), Seq<DefectView>> {
    match verdict {
        Ok(()) => Ok(()),
        Err(error) => Err(error@),
    }
}

/// Every listed defect names a task that broke off, with that task's
/// message, and the defects are listed by rising place.
pub proof fn lemma_defects_are_sound(ends: Seq<TaskEndView>)
    ensures
        defects_of(ends).len() <= ends.len(),
        forall|k: int|
            0 <= k < defects_of(ends).len() ==> {
                let d = #[trigger] defects_of(ends)[k];
                &&& 0 <= d.task < ends.len()
                &&& ends[d.task] == (TaskEndView::Defect { message: d.message })
            },
        forall|j: int, k: int|
            0 <= j < k < defects_of(ends).len() ==> (#[trigger] defects_of(ends)[j]).task < (
            #[trigger] defects_of(ends)[k]).task,
    decreases ends.len(),
{
    if ends.len() > 0 {
        let head = ends.drop_last();
        lemma_defects_are_sound(head);
        assert forall|k: int| 0 <= k < defects_of(ends).len() implies {
            let d = #[trigger] defects_of(ends)[k];
            &&& 0 <= d.task < ends.len()
            &&& ends[d.task] == (TaskEndView::Defect { message: d.message })
        } by {
            if k < defects_of(head).len() {
                let d = defects_of(head)[k];
                assert(defects_of(ends)[k] == d);
                assert(head[d.task] == ends[d.task]);
            }
        }
        assert forall|j: int, k: int| 0 <= j < k < defects_of(ends).len() implies (
        #[trigger] defects_of(ends)[j]).task < (#[trigger] defects_of(ends)[k]).task by {
            if k < defects_of(head).len() {
                assert(defects_of(ends)[j] == defects_of(head)[j]);
                assert(defects_of(ends)[k] == defects_of(head)[k]);
            } else {
                assert(defects_of(ends)[j] == defects_of(head)[j]);
                assert(defects_of(head)[j].task < head.len());
            }
        }
    }
}

/// Every task that broke off is listed.
pub proof fn lemma_defects_are_complete(ends: Seq<TaskEndView>, task: int)
    requires
        0 <= task < ends.len(),
        ends[task] is Defect,
    ensures
        exists|k: int|
            0 <= k < defects_of(ends).len() && (#[trigger] defects_of(ends)[k]).task == task,
    decreases ends.len(),
{
    let head = ends.drop_last();
    if task == ends.len() - 1 {
        let k = defects_of(head).len() as int;
        assert(defects_of(ends)[k].task == task);
    } else {
        lemma_defects_are_complete(head, task);
        let k = choose|k: int|
            0 <= k < defects_of(head).len() && (#[trigger] defects_of(head)[k]).task == task;
        assert(defects_of(ends)[k] == defects_of(head)[k]);
    }
}

/// A run succeeds exactly when every manager has stopped.
pub proof fn law_success_means_all_stopped(ends: Seq<TaskEndView>)
    ensures
        verdict_of(ends) is Ok <==> forall|i: int| 0 <= i < ends.len() ==> #[trigger] ends[i] is Stopped,
{
    lemma_defects_are_sound(ends);
    if verdict_of(ends) is Ok {
        assert forall|i: int| 0 <= i < ends.len() implies #[trigger] ends[i] is Stopped by {
            if ends[i] is Defect {
                lemma_defects_are_complete(ends, i);
            }
        }
    } else {
        let d = defects_of(ends)[0];
        assert(ends[d.task] is Defect);
    }
}

impl Bot {
    /// Judges a finished run from the ends of its tasks, given in the order
    /// in which the tasks were launched: a success where every manager
    /// stopped, else an error that names each task that broke off.
    pub fn verdict(ends: &Vec<TaskEnd>) -> (verdict: Result<(), AggregateError>)
        ensures
            verdict_view(verdict) == verdict_of(ends_view(ends@)),
    {
        let mut defects: Vec<Defect> = Vec::new();
        let mut i: usize = 0;
        while i < ends.len()
            invariant
                i <= ends.len(),
                defects@.map_values(|d: Defect| d@) == defects_of(ends_view(ends@).take(i as int)),
            decreases ends.len() - i,
        {
            let ghost before = defects@.map_values(|d: Defect| d@);
            proof {
                let views = ends_view(ends@);
                assert(views.take(i as int + 1).drop_last() =~= views.take(i as int));
                assert(views.take(i as int + 1).last() == ends@[i as int]@);
            }
            match &ends[i] {
                TaskEnd::Stopped => {},
                TaskEnd::Defect { message } => {
                    let defect = Defect { task: i, message: message.clone() };
                    defects.push(defect);
                    assert(defects@.map_values(|d: Defect| d@) =~= before.push(defect@));
                },
            }
            i = i + 1;
        }
        proof {
            assert(ends_view(ends@).take(ends.len() as int) =~= ends_view(ends@));
        }
        if defects.len() == 0 {
            Ok(())
        } else {
            Err(AggregateError { defects })
        }
    }
}

} // verus!
