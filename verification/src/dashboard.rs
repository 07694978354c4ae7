//! The dashboard builder: registered data frames, pages and output settings.

use vstd::prelude::*;
use crate::NavStyle;
use crate::error::ChartError;
use crate::pages::Page;
use polars::io::{SerReader, SerWriter};

verus! {

/// The polars data frame type, carried as it is.
#[verifier::external_type_specification]
#[verifier::external_body]
pub struct ExDataFrame(polars::prelude::DataFrame);

/// The polars column type; the data frame type is built from it, and
/// polars' trait impls on data frames name it.
#[verifier::external_type_specification]
#[verifier::external_body]
pub struct ExColumn(polars::prelude::Column);

/// The bytes of the Arrow IPC file that polars' IPC writer writes for `df`.
pub uninterp spec fn ipc_file_bytes(df: polars::prelude::DataFrame) -> Seq<u8>;

/// Whether polars' IPC writer succeeds on `df`.
pub uninterp spec fn ipc_write_ok(df: polars::prelude::DataFrame) -> bool;

/// Whether polars' IPC reader succeeds on `bytes`.
pub uninterp spec fn ipc_read_ok(bytes: Seq<u8>) -> bool;

/// The frame polars' IPC reader reads from `bytes`.
pub uninterp spec fn ipc_frame(bytes: Seq<u8>) -> polars::prelude::DataFrame;

/// Whether `b` is the IPC file polars writes for some data frame.
pub open spec fn written_ipc(b: Seq<u8>) -> bool {
    exists|df: polars::prelude::DataFrame| #[trigger] ipc_file_bytes(df) == b
}

/// The magic bytes `ARROW1` that open and close an Arrow IPC file.
pub open spec fn arrow_magic() -> Seq<u8> {
    seq![0x41u8, 0x52u8, 0x52u8, 0x4Fu8, 0x57u8, 0x31u8]
}

/// Whether `b` is framed as an Arrow IPC file: `ARROW1`, two padding zero
/// bytes, the messages, and `ARROW1` again at the very end.
pub open spec fn is_arrow_ipc_file(b: Seq<u8>) -> bool {
    &&& b.len() >= 14
    &&& b.subrange(0, 6) == arrow_magic()
    &&& b[6] == 0u8
    &&& b[7] == 0u8
    &&& b.subrange(b.len() - 6, b.len() as int) == arrow_magic()
}

/// The frame written as an Arrow IPC file into a new in-memory buffer;
/// calls `polars::io::ipc::IpcWriter::new` on a `Cursor` over an empty
/// `Vec` and `SerWriter::finish` with the frame, which writes to memory
/// only, so whether it succeeds and what it writes depend on the frame
/// alone (`ipc_write_ok`, `ipc_file_bytes`). polars' file writer writes
/// `ARROW1` and two zero bytes when it starts and `ARROW1` as the last
/// bytes when it finishes, which [`is_arrow_ipc_file`] states.
#[verifier::external_body]
fn write_ipc(df: &mut polars::prelude::DataFrame) -> (r: Result<Vec<u8>, polars::error::PolarsError>)
    ensures
        r is Ok <==> ipc_write_ok(*old(df)),
        r matches Ok(b) ==> b@ == ipc_file_bytes(*old(df)) && is_arrow_ipc_file(b@),
{
    let mut buf = std::io::Cursor::new(Vec::new());
    match polars::io::ipc::IpcWriter::new(&mut buf).finish(df) {
        Ok(()) => Ok(buf.into_inner()),
        Err(e) => Err(e),
    }
}

/// Serialize a data frame to Arrow IPC bytes; a writer failure is reported
/// as [`ChartError::Serialization`].
pub fn serialize_df(df: &mut polars::prelude::DataFrame) -> (r: Result<Vec<u8>, ChartError>)
    ensures
        r is Ok <==> ipc_write_ok(*old(df)),
        r matches Ok(b) ==> b@ == ipc_file_bytes(*old(df)) && is_arrow_ipc_file(b@),
        r matches Err(e) ==> e is Serialization,
{
    match write_ipc(df) {
        Ok(bytes) => Ok(bytes),
        Err(e) => Err(ChartError::Serialization(e)),
    }
}

/// Reads an Arrow IPC file held in memory; calls
/// `polars::io::ipc::IpcReader::new` on a `Cursor` over the bytes and
/// `SerReader::finish`. Whether it succeeds and the frame it reads depend on
/// the bytes alone (`ipc_read_ok`, `ipc_frame`). It is only called on files
/// polars itself wrote: polars' reader can panic on some malformed
/// compressed buffers, and its writer here never compresses.
#[verifier::external_body]
fn read_ipc(bytes: &[u8]) -> (r: Result<polars::prelude::DataFrame, polars::error::PolarsError>)
    requires
        written_ipc(bytes@),
    ensures
        r is Ok <==> ipc_read_ok(bytes@),
        r matches Ok(f) ==> f == ipc_frame(bytes@),
{
    polars::io::ipc::IpcReader::new(std::io::Cursor::new(bytes)).finish()
}

/// The message of a polars error; calls its `Display` impl through
/// `to_string`. Nothing is claimed of the text.
#[verifier::external_body]
fn polars_error_text(e: &polars::error::PolarsError) -> (s: String) {
    e.to_string()
}

/// Whether `m` is the message of a failure to decode the frame registered
/// under `key`: `IPC decode '<key>': ` followed by polars' own message.
pub open spec fn is_decode_error(m: Seq<char>, key: Seq<char>) -> bool {
    let p = "IPC decode '"@ + key + "': "@;
    m.len() >= p.len() && m.subrange(0, p.len() as int) == p
}

/// Whether the entries of `frame_data` before `i` all decode.
pub open spec fn all_read_before(frame_data: Seq<(String, Vec<u8>)>, i: int) -> bool {
    forall|j: int| 0 <= j < i ==> #[trigger] ipc_read_ok(frame_data[j].1@)
}

/// Decode registered frames from their Arrow IPC bytes, in order, keeping
/// each frame's key. The first frame that fails to decode ends the work
/// with [`ChartError::NativeRender`] naming its key.
pub fn decode_frames(frame_data: &Vec<(String, Vec<u8>)>) -> (r: Result<Vec<(String, polars::prelude::DataFrame)>, ChartError>)
    requires
        forall|i: int| 0 <= i < frame_data@.len() ==> #[trigger] written_ipc(frame_data@[i].1@),
    ensures
        r is Ok <==> all_read_before(frame_data@, frame_data@.len() as int),
        r matches Ok(v) ==> (v@.len() == frame_data@.len()
            && forall|i: int| #![trigger v@[i]] 0 <= i < v@.len() ==> (v@[i].0@ == frame_data@[i].0@
                && v@[i].1 == ipc_frame(frame_data@[i].1@))),
        r matches Err(e) ==> (e matches ChartError::NativeRender(m)
            && exists|i: int| 0 <= i < frame_data@.len() && all_read_before(frame_data@, i)
                && !ipc_read_ok(frame_data@[i].1@) && #[trigger] is_decode_error(m@, frame_data@[i].0@)),
{
    let mut out: Vec<(String, polars::prelude::DataFrame)> = Vec::new();
    let n = frame_data.len();
    for i in 0..n
        invariant
            n == frame_data@.len(),
            forall|k: int| 0 <= k < frame_data@.len() ==> #[trigger] written_ipc(frame_data@[k].1@),
            out@.len() == i,
            all_read_before(frame_data@, i as int),
            forall|j: int| #![trigger out@[j]] 0 <= j < i ==> (out@[j].0@ == frame_data@[j].0@
                && out@[j].1 == ipc_frame(frame_data@[j].1@)),
    {
        proof {
            assert(written_ipc(frame_data@[i as int].1@));
        }
        match read_ipc(frame_data[i].1.as_slice()) {
            Ok(df) => {
                let ghost out0 = out@;
                out.push((frame_data[i].0.clone(), df));
                proof {
                    assert(out@[i as int].1 == ipc_frame(frame_data@[i as int].1@));
                    assert forall|j: int| #![trigger out@[j]] 0 <= j < i + 1 implies (out@[j].0@ == frame_data@[j].0@
                        && out@[j].1 == ipc_frame(frame_data@[j].1@)) by {
                        if j < i {
                            assert(out@[j] == out0[j]);
                        }
                    }
                    assert forall|j: int| 0 <= j < i + 1 implies #[trigger] ipc_read_ok(frame_data@[j].1@) by {
                        if j < i {
                            assert(all_read_before(frame_data@, i as int));
                        }
                    }
                }
            },
            Err(e) => {
                let mut m = String::from_str("IPC decode '");
                m.append(frame_data[i].0.as_str());
                m.append("': ");
                let ghost head = m@;
                let t = polars_error_text(&e);
                m.append(t.as_str());
                proof {
                    let key = frame_data@[i as int].0@;
                    assert(head =~= "IPC decode '"@ + key + "': "@);
                    assert(m@.subrange(0, head.len() as int) =~= head);
                    assert(is_decode_error(m@, frame_data@[i as int].0@));
                    assert(!all_read_before(frame_data@, n as int)) by {
                        assert(!ipc_read_ok(frame_data@[i as int].1@));
                    }
                }
                let err = ChartError::NativeRender(m);
                proof {
                    assert(err matches ChartError::NativeRender(mm) && mm@ == m@);
                }
                return Err(err);
            },
        }
    }
    Ok(out)
}

/// The position of the last of `keys` equal to `key`, if any: a key
/// registered again shadows its earlier frames.
pub open spec fn last_with_key(keys: Seq<Seq<char>>, key: Seq<char>) -> Option<int>
    decreases keys.len(),
{
    if keys.len() == 0 {
        None
    } else if keys.last() == key {
        Some(keys.len() - 1)
    } else {
        last_with_key(keys.drop_last(), key)
    }
}

/// The keys of decoded frames, in order.
pub open spec fn frame_keys(frames: Seq<(String, polars::prelude::DataFrame)>) -> Seq<Seq<char>> {
    frames.map_values(|p: (String, polars::prelude::DataFrame)| p.0@)
}

/// Where the frame registered under `key` is among decoded frames: the
/// last one under that key.
pub fn frame_index(frames: &Vec<(String, polars::prelude::DataFrame)>, key: &str) -> (r: Option<usize>)
    ensures
        r matches Some(i) ==> last_with_key(frame_keys(frames@), key@) == Some(i as int),
        r is None ==> last_with_key(frame_keys(frames@), key@) is None,
{
    let mut i = frames.len();
    proof {
        assert(frames@.take(i as int) =~= frames@);
    }
    while i > 0
        invariant
            i <= frames@.len(),
            last_with_key(frame_keys(frames@), key@) == last_with_key(frame_keys(frames@.take(i as int)), key@),
        decreases i,
    {
        proof {
            assert(frame_keys(frames@.take(i as int)).drop_last() =~= frame_keys(frames@.take(i - 1)));
            assert(frame_keys(frames@.take(i as int)).last() == frames@[i - 1].0@);
        }
        if crate::text::str_eq(frames[i - 1].0.as_str(), key) {
            return Some(i - 1);
        }
        i = i - 1;
    }
    proof {
        assert(frame_keys(frames@.take(0)) =~= Seq::<Seq<char>>::empty());
    }
    None
}

/// The state of a dashboard: registered frames as `(key, IPC bytes)`,
/// pages in insertion order, the output directory, the report title and the
/// navigation style.
pub struct DashboardView {
    pub frames: Seq<(Seq<char>, Seq<u8>)>,
    pub pages: Seq<Page>,
    pub output_dir: Seq<char>,
    pub title: Seq<char>,
    pub nav_style: NavStyle,
}

/// The views of registered frames.
pub open spec fn frames_view(v: Seq<(String, Vec<u8>)>) -> Seq<(Seq<char>, Seq<u8>)> {
    v.map_values(|p: (String, Vec<u8>)| (p.0@, p.1@))
}

/// High-level dashboard builder: registered data frames (as Arrow IPC
/// bytes), pages in insertion order, the output directory, the report title
/// and the navigation style. Every registered byte string is an IPC file
/// that polars wrote, since frames are registered only through
/// [`Dashboard::add_df`].
pub struct Dashboard {
    frames: Vec<(String, Vec<u8>)>,
    pages: Vec<Page>,
    output_dir: String,
    title: String,
    nav_style: NavStyle,
}

impl View for Dashboard {
    type V = DashboardView;

    closed spec fn view(&self) -> DashboardView {
        DashboardView {
            frames: frames_view(self.frames@),
            pages: self.pages@,
            output_dir: self.output_dir@,
            title: self.title@,
            nav_style: self.nav_style,
        }
    }
}

impl Dashboard {
    /// Every registered byte string is an IPC file that polars wrote.
    #[verifier::type_invariant]
    closed spec fn frames_written(self) -> bool {
        forall|i: int| 0 <= i < self.frames@.len() ==> #[trigger] written_ipc(self.frames@[i].1@)
    }

    /// An empty dashboard writing to `output`, with no title and the
    /// horizontal navigation bar.
    pub fn new() -> (d: Self)
        ensures
            d@.frames.len() == 0,
            d@.pages.len() == 0,
            d@.output_dir == "output"@,
            d@.title == Seq::<char>::empty(),
            d@.nav_style == NavStyle::Horizontal,
    {
        let d = Dashboard {
            frames: Vec::new(),
            pages: Vec::new(),
            output_dir: String::from_str("output"),
            title: String::new(),
            nav_style: NavStyle::Horizontal,
        };
        proof {
            assert(frames_view(d.frames@) =~= Seq::<(Seq<char>, Seq<u8>)>::empty());
        }
        d
    }

    /// Set the report title shown in the navigation on every page.
    pub fn title(self, title: &str) -> (d: Self)
        ensures
            d@ == (DashboardView { title: title@, ..self@ }),
    {
        proof {
            use_type_invariant(&self);
        }
        Dashboard { title: String::from_str(title), ..self }
    }

    /// Set the navigation bar orientation.
    pub fn nav_style(self, style: NavStyle) -> (d: Self)
        ensures
            d@ == (DashboardView { nav_style: style, ..self@ }),
    {
        proof {
            use_type_invariant(&self);
        }
        Dashboard { nav_style: style, ..self }
    }

    /// Set the directory the HTML files are written to.
    pub fn output_dir(self, dir: &str) -> (d: Self)
        ensures
            d@ == (DashboardView { output_dir: dir@, ..self@ }),
    {
        proof {
            use_type_invariant(&self);
        }
        Dashboard { output_dir: String::from_str(dir), ..self }
    }

    /// Register a data frame under `key`, serialized to Arrow IPC bytes at
    /// once; it fails exactly when polars cannot write the frame, and then
    /// the dashboard is unchanged. A key registered again shadows the
    /// earlier frame (see [`frame_index`]).
    pub fn add_df(&mut self, key: &str, df: &mut polars::prelude::DataFrame) -> (r: Result<&mut Self, ChartError>)
        ensures
            r is Ok <==> ipc_write_ok(*old(df)),
            r matches Ok(d) ==> (*d)@ == (DashboardView {
                frames: old(self)@.frames.push((key@, ipc_file_bytes(*old(df)))),
                ..old(self)@
            }),
            r is Ok ==> is_arrow_ipc_file(ipc_file_bytes(*old(df))),
            r matches Ok(d) ==> *final(self) == *final(d),
            r is Err ==> *final(self) == *old(self),
            r matches Err(e) ==> e is Serialization,
    {
        proof {
            use_type_invariant(&*self);
        }
        match serialize_df(df) {
            Ok(bytes) => {
                let ghost f0 = self.frames@;
                let ghost b = bytes@;
                assert(forall|i: int| 0 <= i < f0.len() ==> #[trigger] written_ipc(f0[i].1@));
                let mut frames: Vec<(String, Vec<u8>)> = Vec::new();
                std::mem::swap(&mut frames, &mut self.frames);
                assert(frames@ == f0);
                frames.push((String::from_str(key), bytes));
                proof {
                    assert(written_ipc(b));
                    assert(frames@.len() == f0.len() + 1);
                    assert(frames@[f0.len() as int].1@ == b);
                    assert forall|i: int| 0 <= i < frames@.len() implies #[trigger] written_ipc(frames@[i].1@) by {
                        if i < f0.len() {
                            assert(frames@[i] == f0[i]);
                            assert(written_ipc(f0[i].1@));
                        } else {
                            assert(i == f0.len());
                            assert(frames@[i].1@ == b);
                        }
                    }
                    assert(frames_view(frames@) =~= frames_view(f0).push((key@, b)));
                }
                self.frames = frames;
                Ok(self)
            },
            Err(e) => Err(e),
        }
    }

    /// Add a page; pages render in insertion order.
    pub fn add_page(&mut self, page: Page) -> (r: &mut Self)
        ensures
            (*r)@ == (DashboardView { pages: old(self)@.pages.push(page), ..old(self)@ }),
            *final(self) == *final(r),
    {
        proof {
            use_type_invariant(&*self);
        }
        let mut pages: Vec<Page> = Vec::new();
        std::mem::swap(&mut pages, &mut self.pages);
        pages.push(page);
        self.pages = pages;
        self
    }

    /// The registered frames, each an IPC file that polars wrote.
    pub fn frames(&self) -> (r: &Vec<(String, Vec<u8>)>)
        ensures
            frames_view(r@) == self@.frames,
            forall|i: int| 0 <= i < r@.len() ==> #[trigger] written_ipc(r@[i].1@),
    {
        proof {
            use_type_invariant(self);
        }
        &self.frames
    }

    /// The pages, in insertion order.
    pub fn pages(&self) -> (r: &Vec<Page>)
        ensures
            r@ == self@.pages,
    {
        &self.pages
    }

    /// The directory the HTML files are written to.
    pub fn output_path(&self) -> (r: &str)
        ensures
            r@ == self@.output_dir,
    {
        self.output_dir.as_str()
    }

    /// The report title.
    pub fn report_title(&self) -> (r: &str)
        ensures
            r@ == self@.title,
    {
        self.title.as_str()
    }

    /// The navigation style.
    pub fn style(&self) -> (r: NavStyle)
        ensures
            r == self@.nav_style,
    {
        self.nav_style
    }
}

impl Default for Dashboard {
    fn default() -> (d: Self)
        ensures
            d@.frames.len() == 0,
            d@.pages.len() == 0,
            d@.output_dir == "output"@,
            d@.title == Seq::<char>::empty(),
            d@.nav_style == NavStyle::Horizontal,
    {
        Self::new()
    }
}

} // verus!
