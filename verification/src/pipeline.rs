//! The per-date pipeline as a state machine.
//!
//! Each requested date runs through one task: offset computed → picture
//! URL resolved → picture fetched and re-encoded → output file written,
//! failing from any state on the first error and never moving backward.
//! The library makes every decision; the caller only performs the returned
//! [`Action`] (an HTTP GET or a file write) and hands the outcome back as
//! an event. A batch runs its tasks strictly in order and stops at the
//! first task that fails.

use vstd::prelude::*;

use crate::archive::{archive_image_url, first_record_url, response_ok};
use crate::error::Error;
use crate::imagecodec::{decoded_image_of, jpeg_encodable, jpeg_of, reencode_jpeg};
use crate::json::json_of;
use crate::urls::{
    archive_query_url, archive_query_url_spec, output_file_name, output_file_name_spec,
    resolved_url_spec,
};

verus! {

/// The fixed output file name of the single-picture variant.
pub open spec fn wallpaper_file_name_spec() -> Seq<char> {
    "wallpaper.jpg"@
}

/// What the caller observed of one HTTP exchange.
pub enum HttpEvent {
    /// The server answered: the status code and the full body bytes.
    Response {
        /// The HTTP status code of the answer.
        status: u16,
        /// The full response body.
        body: Vec<u8>,
    },
    /// The connection itself failed: DNS, connect, TLS or timeout.
    TransportFailed {
        /// A human-readable description of the failure.
        detail: String,
    },
}

/// What the caller observed of one file write.
pub enum WriteEvent {
    /// The file was created and written whole.
    Succeeded,
    /// The file could not be created or written.
    WriteFailed {
        /// A human-readable description of the failure.
        detail: String,
    },
}

/// The state of one date's task.
#[derive(Debug)]
pub enum TaskState {
    /// The day offset is computed; the archive has not been queried yet.
    OffsetComputed {
        /// The task's day offset.
        offset: i64,
        /// The file the picture will be written to.
        file_name: String,
    },
    /// The archive answered and the picture's absolute URL is resolved.
    UrlResolved {
        /// The task's day offset.
        offset: i64,
        /// The file the picture will be written to.
        file_name: String,
        /// The resolved picture URL.
        image_url: String,
    },
    /// The picture is downloaded and re-encoded as JPEG, ready to write.
    ImageFetched {
        /// The task's day offset.
        offset: i64,
        /// The file the picture will be written to.
        file_name: String,
        /// The re-encoded JPEG bytes.
        jpeg: Vec<u8>,
    },
    /// The output file is written; the task succeeded.
    Written {
        /// The task's day offset.
        offset: i64,
    },
    /// The task failed; terminal, and it aborts the whole batch.
    Failed {
        /// The failure, carrying its kind and offset.
        error: Error,
    },
}

/// What the caller must do next for a task.
pub enum Action<'a> {
    /// Issue an HTTP GET to the archive query URL; hand the outcome back
    /// through [`TaskState::on_archive_response`].
    QueryArchive {
        /// The archive query URL.
        url: String,
    },
    /// Issue an HTTP GET to the resolved picture URL; hand the outcome
    /// back through [`TaskState::on_image_response`].
    FetchImage {
        /// The picture URL.
        url: String,
    },
    /// Write the bytes to the named file in the working directory,
    /// overwriting any existing file; hand the outcome back through
    /// [`TaskState::on_write_result`].
    SaveFile {
        /// The output file name.
        name: String,
        /// The JPEG bytes to write.
        bytes: &'a [u8],
    },
    /// The task is finished, written or failed; nothing more to do.
    Stop,
}

impl TaskState {
    /// How far along the pipeline a state lies; failure outranks all so
    /// that every transition moves strictly forward.
    pub open spec fn stage_spec(self) -> int {
        match self {
            TaskState::OffsetComputed { .. } => 0,
            TaskState::UrlResolved { .. } => 1,
            TaskState::ImageFetched { .. } => 2,
            TaskState::Written { .. } => 3,
            TaskState::Failed { .. } => 4,
        }
    }

    /// The day offset the state belongs to.
    pub open spec fn offset_spec(self) -> i64 {
        match self {
            TaskState::OffsetComputed { offset, .. } => offset,
            TaskState::UrlResolved { offset, .. } => offset,
            TaskState::ImageFetched { offset, .. } => offset,
            TaskState::Written { offset } => offset,
            TaskState::Failed { error } => error.offset_spec(),
        }
    }

    /// The output file name a live task will write to; empty once the
    /// task is written or failed and no write can follow.
    pub open spec fn file_name_spec(self) -> Seq<char> {
        match self {
            TaskState::OffsetComputed { file_name, .. } => file_name@,
            TaskState::UrlResolved { file_name, .. } => file_name@,
            TaskState::ImageFetched { file_name, .. } => file_name@,
            _ => Seq::empty(),
        }
    }

    /// A live task only ever holds a non-negative offset: negative offsets
    /// fail at the start and never reach the archive.
    pub open spec fn wf(self) -> bool {
        match self {
            TaskState::Failed { .. } => true,
            _ => self.offset_spec() >= 0,
        }
    }

    /// Returns the day offset the state belongs to.
    pub fn offset(&self) -> (o: i64)
        ensures
            o == self.offset_spec(),
    {
        match self {
            TaskState::OffsetComputed { offset, .. } => *offset,
            TaskState::UrlResolved { offset, .. } => *offset,
            TaskState::ImageFetched { offset, .. } => *offset,
            TaskState::Written { offset } => *offset,
            TaskState::Failed { error } => error.offset(),
        }
    }

    /// Starts the task for one day offset, writing to the offset-derived
    /// file name.
    ///
    /// The archive's behaviour on negative offsets (future dates) is
    /// undefined upstream, so a negative offset fails outright as
    /// not-found instead of guessing.
    pub fn start(offset: i64) -> (s: TaskState)
        ensures
            offset >= 0 ==> (s matches TaskState::OffsetComputed { offset: o, file_name }
                && o == offset && file_name@ == output_file_name_spec(offset as int)),
            offset < 0 ==> s == (TaskState::Failed {
                error: Error::NotFound { offset },
            }),
            s.wf(),
    {
        if offset >= 0 {
            TaskState::OffsetComputed { offset, file_name: output_file_name(offset) }
        } else {
            TaskState::Failed { error: Error::NotFound { offset } }
        }
    }

    /// Starts the single-picture task: the current record, queried at
    /// offset zero, written to the fixed file name.
    pub fn start_wallpaper() -> (s: TaskState)
        ensures
            s matches TaskState::OffsetComputed { offset, file_name } && offset == 0
                && file_name@ == wallpaper_file_name_spec(),
            s.wf(),
    {
        TaskState::OffsetComputed { offset: 0, file_name: "wallpaper.jpg".to_owned() }
    }

    /// What the caller must do next: query the archive, fetch the
    /// picture, write the file, or stop.
    pub fn next_action<'a>(&'a self) -> (a: Action<'a>)
        requires
            self.wf(),
        ensures
            self matches TaskState::OffsetComputed { offset, .. } ==> (a matches
                Action::QueryArchive { url } && url@ == archive_query_url_spec(offset as int)),
            self matches TaskState::UrlResolved { image_url, .. } ==> (a matches
                Action::FetchImage { url } && url@ == image_url@),
            self matches TaskState::ImageFetched { file_name, jpeg, .. } ==> (a matches
                Action::SaveFile { name, bytes } && name@ == file_name@ && bytes@ == jpeg@),
            self matches TaskState::Written { .. } ==> a matches Action::Stop,
            self matches TaskState::Failed { .. } ==> a matches Action::Stop,
    {
        match self {
            TaskState::OffsetComputed { offset, .. } => Action::QueryArchive {
                url: archive_query_url(*offset),
            },
            TaskState::UrlResolved { image_url, .. } => Action::FetchImage {
                url: image_url.clone(),
            },
            TaskState::ImageFetched { file_name, jpeg, .. } => Action::SaveFile {
                name: file_name.clone(),
                bytes: jpeg.as_slice(),
            },
            TaskState::Written { .. } => Action::Stop,
            TaskState::Failed { .. } => Action::Stop,
        }
    }

    /// Takes the outcome of the archive query.
    ///
    /// A transport failure or a non-success status fails the task with
    /// the matching error kind; a success status has its body validated
    /// and resolved to the picture URL, an empty record list is
    /// not-found, and any other body is a decode failure.
    pub fn on_archive_response(self, ev: HttpEvent) -> (s2: TaskState)
        requires
            self matches TaskState::OffsetComputed { .. },
            self.wf(),
        ensures
            s2.wf(),
            s2.stage_spec() > self.stage_spec(),
            ev matches HttpEvent::TransportFailed { detail } ==> s2 == (TaskState::Failed {
                error: Error::Transport { offset: self.offset_spec(), detail },
            }),
            ev matches HttpEvent::Response { status, .. } ==> (!(200 <= status && status < 300)
                ==> s2 == (TaskState::Failed {
                error: Error::Protocol { offset: self.offset_spec(), status },
            })),
            ev matches HttpEvent::Response { status, body } ==> ((200 <= status && status < 300)
                ==> {
                let off = self.offset_spec();
                &&& ((json_of(body@) matches Some(j) && response_ok(j)
                    && j->Obj_0["images"@]->Arr_0.len() > 0) ==> (s2 matches
                    TaskState::UrlResolved { offset, file_name, image_url } && offset == off
                    && file_name@ == self.file_name_spec()
                    && image_url@ == resolved_url_spec(first_record_url(json_of(body@)->Some_0))))
                &&& ((json_of(body@) is None || (json_of(body@) matches Some(j)
                    && !response_ok(j))) ==> (s2 matches TaskState::Failed { error }
                    && error matches Error::Decode { offset: o, .. } && o == off))
                &&& ((json_of(body@) matches Some(j) && response_ok(j)
                    && j->Obj_0["images"@]->Arr_0.len() == 0) ==> s2 == (TaskState::Failed {
                    error: Error::NotFound { offset: off },
                }))
            }),
    {
        let (offset, file_name) = match self {
            TaskState::OffsetComputed { offset, file_name } => (offset, file_name),
            // unreachable: the contract admits only offset-computed tasks
            _ => (0, String::new()),
        };
        match ev {
            HttpEvent::TransportFailed { detail } => TaskState::Failed {
                error: Error::Transport { offset, detail },
            },
            HttpEvent::Response { status, body } => {
                if !(200 <= status && status < 300) {
                    TaskState::Failed { error: Error::Protocol { offset, status } }
                } else {
                    match archive_image_url(offset, body.as_slice()) {
                        Ok(image_url) => TaskState::UrlResolved { offset, file_name, image_url },
                        Err(error) => TaskState::Failed { error },
                    }
                }
            },
        }
    }

    /// Takes the outcome of the picture download.
    ///
    /// A transport failure or a non-success status fails the task with
    /// the matching error kind. A success body is decoded with the format
    /// sniffed from the bytes and re-encoded as JPEG: that succeeds
    /// exactly when the bytes decode and the decoded picture is JPEG-
    /// encodable, and anything else is a decode failure.
    pub fn on_image_response(self, ev: HttpEvent) -> (s2: TaskState)
        requires
            self matches TaskState::UrlResolved { .. },
            self.wf(),
        ensures
            s2.wf(),
            s2.stage_spec() > self.stage_spec(),
            ev matches HttpEvent::TransportFailed { detail } ==> s2 == (TaskState::Failed {
                error: Error::Transport { offset: self.offset_spec(), detail },
            }),
            ev matches HttpEvent::Response { status, .. } ==> (!(200 <= status && status < 300)
                ==> s2 == (TaskState::Failed {
                error: Error::Protocol { offset: self.offset_spec(), status },
            })),
            ev matches HttpEvent::Response { status, body } ==> ((200 <= status && status < 300)
                ==> {
                let off = self.offset_spec();
                &&& (s2 matches TaskState::ImageFetched { offset, file_name, jpeg } ==> (offset
                    == off && file_name@ == self.file_name_spec() && (decoded_image_of(body@)
                    matches Some(contents) && jpeg_encodable(contents) && jpeg@ == jpeg_of(
                    contents,
                ))))
                &&& ((decoded_image_of(body@) matches Some(contents) && jpeg_encodable(contents))
                    ==> s2 matches TaskState::ImageFetched { .. })
                &&& (decoded_image_of(body@) is None ==> (s2 matches TaskState::Failed { error }
                    && error matches Error::Decode { offset: o, .. } && o == off))
                &&& (decoded_image_of(body@) matches Some(contents) ==> (!jpeg_encodable(contents)
                    ==> (s2 matches TaskState::Failed { error } && error matches Error::Decode {
                    offset: o,
                    ..
                } && o == off)))
            }),
    {
        let (offset, file_name) = match self {
            TaskState::UrlResolved { offset, file_name, .. } => (offset, file_name),
            // unreachable: the contract admits only URL-resolved tasks
            _ => (0, String::new()),
        };
        match ev {
            HttpEvent::TransportFailed { detail } => TaskState::Failed {
                error: Error::Transport { offset, detail },
            },
            HttpEvent::Response { status, body } => {
                if !(200 <= status && status < 300) {
                    TaskState::Failed { error: Error::Protocol { offset, status } }
                } else {
                    match reencode_jpeg(offset, body.as_slice()) {
                        Ok(jpeg) => TaskState::ImageFetched { offset, file_name, jpeg },
                        Err(error) => TaskState::Failed { error },
                    }
                }
            },
        }
    }

    /// Whether the task has reached one of its two terminal states.
    pub open spec fn is_terminal(self) -> bool {
        self is Written || self is Failed
    }

    /// Takes the outcome of the file write: success completes the task,
    /// failure fails it with a filesystem error.
    pub fn on_write_result(self, ev: WriteEvent) -> (s2: TaskState)
        requires
            self matches TaskState::ImageFetched { .. },
            self.wf(),
        ensures
            s2.wf(),
            s2.stage_spec() > self.stage_spec(),
            ev matches WriteEvent::Succeeded ==> s2 == (TaskState::Written {
                offset: self.offset_spec(),
            }),
            ev matches WriteEvent::WriteFailed { detail } ==> s2 == (TaskState::Failed {
                error: Error::Filesystem { offset: self.offset_spec(), detail },
            }),
    {
        let offset = self.offset();
        match ev {
            WriteEvent::Succeeded => TaskState::Written { offset },
            WriteEvent::WriteFailed { detail } => TaskState::Failed {
                error: Error::Filesystem { offset, detail },
            },
        }
    }
}

/// One batch run: the requested offsets, their tasks run strictly in
/// request order, stopping at the first task that fails.
///
/// Success of the whole batch means every offset's task was written;
/// there is no partial-success reporting, and after a failure no further
/// task is offered.
pub struct Batch {
    /// The day offsets, in request order.
    offsets: Vec<i64>,
    /// How many tasks have finished successfully.
    done: usize,
    /// The first failure, if one arose.
    failure: Option<Error>,
}

impl Batch {
    /// The requested offsets, in request order.
    pub closed spec fn offsets_spec(self) -> Seq<i64> {
        self.offsets@
    }

    /// How many tasks have finished successfully so far.
    pub closed spec fn done_spec(self) -> int {
        self.done as int
    }

    /// The first failure, if one arose.
    pub closed spec fn failure_spec(self) -> Option<Error> {
        self.failure
    }

    /// The cursor never runs past the requested offsets.
    pub closed spec fn wf(self) -> bool {
        0 <= self.done_spec() <= self.offsets_spec().len()
    }

    /// Whether every requested offset produced an output file.
    pub open spec fn succeeded_spec(self) -> bool {
        self.failure_spec() is None && self.done_spec() == self.offsets_spec().len()
    }

    /// Starts a batch over the given offsets.
    pub fn start(offsets: Vec<i64>) -> (b: Batch)
        ensures
            b.offsets_spec() == offsets@,
            b.done_spec() == 0,
            b.failure_spec() is None,
            b.wf(),
    {
        Batch { offsets, done: 0, failure: None }
    }

    /// The offset whose task must run next: the first one not yet done,
    /// and nothing once the batch has failed or finished — a failure
    /// aborts the batch, so the remaining dates are never attempted.
    pub fn current(&self) -> (r: Option<i64>)
        requires
            self.wf(),
        ensures
            r is Some <==> (self.failure_spec() is None && self.done_spec()
                < self.offsets_spec().len()),
            r matches Some(o) ==> o == self.offsets_spec()[self.done_spec()],
    {
        if self.failure.is_none() && self.done < self.offsets.len() {
            Some(self.offsets[self.done])
        } else {
            None
        }
    }

    /// Takes the terminal state of the current offset's task: a written
    /// task advances the cursor, a failed task records the batch's
    /// failure and stops it.
    pub fn on_task_finished(self, task: TaskState) -> (b2: Batch)
        requires
            self.wf(),
            self.failure_spec() is None,
            self.done_spec() < self.offsets_spec().len(),
            task.is_terminal(),
        ensures
            b2.wf(),
            b2.offsets_spec() == self.offsets_spec(),
            task matches TaskState::Written { .. } ==> (b2.done_spec() == self.done_spec() + 1
                && b2.failure_spec() is None),
            task matches TaskState::Failed { error } ==> (b2.done_spec() == self.done_spec()
                && b2.failure_spec() == Some(error)),
    {
        match task {
            TaskState::Written { .. } => {
                let bumped: usize = if self.done < self.offsets.len() {
                    self.done + 1
                } else {
                    self.done
                };
                Batch { offsets: self.offsets, done: bumped, failure: self.failure }
            },
            TaskState::Failed { error } => Batch {
                offsets: self.offsets,
                done: self.done,
                failure: Some(error),
            },
            _ => self,
        }
    }

    /// The batch's outcome, to be read only once the batch is over (no
    /// task left to offer): the first failure, or a success that entails
    /// that every requested offset was written.
    pub fn into_result(self) -> (r: Result<(), Error>)
        requires
            self.wf(),
            self.failure_spec() is Some || self.done_spec() == self.offsets_spec().len(),
        ensures
            self.failure_spec() matches Some(e) ==> r == Err::<(), Error>(e),
            self.failure_spec() is None ==> (r == Ok::<(), Error>(()) && self.succeeded_spec()),
    {
        match self.failure {
            Some(e) => Err(e),
            None => Ok(()),
        }
    }
}

} // verus!
