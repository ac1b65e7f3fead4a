use vstd::prelude::*;

verus! {

/// A change observed in the watched directory, after debouncing.
#[derive(Clone, Debug)]
pub enum ChangeEvent {
    Created(String),
    Modified(String),
    Removed(String),
    Renamed(String, String),
}

/// A file that is ready to be shipped.
#[derive(Clone, Debug)]
pub struct UploadJob {
    pub absolute_path: String,
}

/// The job an event asks for: a created file is shipped, nothing else is.
pub open spec fn job_path_of(e: ChangeEvent) -> Option<Seq<char>> {
    match e {
        ChangeEvent::Created(p) => Some(p@),
        _ => None,
    }
}

/// Turns an event into an upload job; only a creation qualifies.
pub fn filter_event(event: ChangeEvent) -> (r: Option<UploadJob>)
    ensures
        r matches Some(j) <==> event is Created,
        r matches Some(j) ==> Some(j.absolute_path@) == job_path_of(event),
{
    match event {
        ChangeEvent::Created(path) => Some(UploadJob { absolute_path: path }),
        _ => None,
    }
}

} // verus!
