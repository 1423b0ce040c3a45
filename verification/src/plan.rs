//! What a dashboard is made of once its statements are settled.

use vstd::prelude::*;

use crate::error::{ApiError, ApiErrorView};
use crate::json::{Json, JsonView};

verus! {

/// A dashboard, once its statements are settled.
pub enum Plan<D> {
    /// No live data could be had: the document to show instead.
    Sample { document: Json },
    /// The live data, to which the time and the floating-point numbers are still to be added.
    Live { draft: D },
}

/// What a [`Plan`] is.
pub enum PlanView<V> {
    Sample { document: JsonView },
    Live { draft: V },
}

impl<D: View> View for Plan<D> {
    type V = PlanView<D::V>;

    open spec fn view(&self) -> PlanView<D::V> {
        match self {
            Plan::Sample { document } => PlanView::Sample { document: document@ },
            Plan::Live { draft } => PlanView::Live { draft: draft@ },
        }
    }
}

/// What a request for a dashboard comes to.
pub type Planned<D> = Result<Plan<D>, ApiError>;

/// What a [`Planned`] is.
pub type PlannedView<V> = Result<PlanView<V>, ApiErrorView>;

/// What `planned` is.
pub open spec fn planned_view<D: View>(planned: Planned<D>) -> PlannedView<D::V> {
    match planned {
        Ok(plan) => Ok(plan@),
        Err(error) => Err(error@),
    }
}

} // verus!
