//! A middleware that watches requests and responses go by and changes
//! neither. It runs last in both phases.

use crate::middleware::{Middleware, MiddlewarePriority};
use crate::request::HttpRequest;
use crate::response::HttpResponse;
use crate::router::flow::RequestFlow;
use std::sync::Arc;
use vstd::prelude::*;

verus! {

pub struct LoggingMiddleware {}

/// How much is logged.
#[derive(Debug, Clone, Copy, PartialEq, Eq, Structural)]
pub enum LogLevel {
    TRACE,
    DEBUG,
    INFO,
    WARN,
    ERROR,
}

impl LoggingMiddleware {
    pub fn new() -> Self {
        Self {}
    }
}

impl Middleware for LoggingMiddleware {
    open spec fn spec_before_priority(&self) -> Option<MiddlewarePriority> {
        Some(MiddlewarePriority::Monitor)
    }

    fn before_priority(&self) -> (p: Option<MiddlewarePriority>) {
        Some(MiddlewarePriority::Monitor)
    }

    open spec fn spec_after_priority(&self) -> Option<MiddlewarePriority> {
        Some(MiddlewarePriority::Monitor)
    }

    fn after_priority(&self) -> (p: Option<MiddlewarePriority>) {
        Some(MiddlewarePriority::Monitor)
    }

    open spec fn acts_before(&self, given: HttpRequest, made: HttpRequest) -> bool {
        made == given
    }

    fn act_before(&self, req: &mut HttpRequest) {
    }

    open spec fn acts_after(&self, flow: RequestFlow, given: HttpResponse, made: HttpResponse) -> bool {
        made == given
    }

    fn act_after(&self, flow: &Arc<RequestFlow>, response: &mut HttpResponse) {
    }
}

} // verus!
