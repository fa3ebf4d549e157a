//! The ordered set of live windows and its reconciliation against a freshly
//! analysed image list: windows are matched by ordinal position, reused when
//! both sides have one, created when the list grew, and left untouched when
//! it shrank; a failed reload leaves the whole set unchanged.

use vstd::prelude::*;
use crate::images::{ImageDescriptor, ImageModel, ScriptError};
use crate::uniforms::{copy_uniform_list, Uniform};

verus! {

/// The mathematical view of one live window.
pub ghost struct DisplayModel {
    /// Identifies the OS window this slot owns; fresh handles never repeat.
    pub handle: int,
    /// The fragment-shader source its current program was compiled from.
    pub source: Seq<char>,
    /// The uniform kinds that program expects; swapped together with it.
    pub uniforms: Seq<Uniform>,
    pub mouse_x: int,
    pub mouse_y: int,
    pub done: bool,
}

/// One live window: its identity, the source its current program came from,
/// the uniform set of that program, the cached mouse position, and whether
/// it awaits removal at the end of the frame.
pub struct DisplayState {
    pub handle: u64,
    pub source: crate::images::ImageSource,
    pub uniforms: Vec<Uniform>,
    pub mouse_x: i32,
    pub mouse_y: i32,
    pub done: bool,
}

impl View for DisplayState {
    type V = DisplayModel;

    open spec fn view(&self) -> DisplayModel {
        DisplayModel {
            handle: self.handle as int,
            source: self.source@,
            uniforms: self.uniforms@,
            mouse_x: self.mouse_x as int,
            mouse_y: self.mouse_y as int,
            done: self.done,
        }
    }
}

/// The windows that survive a frame: those not marked done.
pub open spec fn live_displays(s: Seq<DisplayModel>) -> Seq<DisplayModel> {
    s.filter(|d: DisplayModel| !d.done)
}

/// Once every window is closed, removing the closed ones leaves none live,
/// and the render loop then terminates exactly when `keep` is absent: with
/// `keep` set it goes on watching with zero windows.
pub proof fn lemma_all_closed_ends_loop(s: Seq<DisplayModel>, keep: bool)
    requires
        forall|i: int| 0 <= i < s.len() ==> (#[trigger] s[i]).done,
    ensures
        live_displays(s).len() == 0,
        crate::options::loop_exits(live_displays(s).len() as int, keep) <==> !keep,
    decreases s.len(),
{
    reveal(Seq::filter);
    if s.len() == 0 {
    } else {
        assert(s.drop_last().len() == s.len() - 1);
        lemma_all_closed_ends_loop(s.drop_last(), keep);
    }
}

/// How a successful reload relates the window list before (`pre`, next fresh
/// handle `pre_next`) and after (`post`, `post_next`) to the image list:
/// positions present on both sides keep their window and cached state but
/// carry the new source and uniform set, positions only in the image list get
/// a fresh window, and positions past the image list stay untouched.
pub open spec fn reconciled(
    pre: Seq<DisplayModel>,
    pre_next: int,
    images: Seq<ImageModel>,
    post: Seq<DisplayModel>,
    post_next: int,
) -> bool {
    let m = pre.len() as int;
    let n = images.len() as int;
    &&& post.len() == (if n >= m {
        n
    } else {
        m
    })
    &&& (forall|i: int|
        0 <= i < n ==> (#[trigger] post[i]).source == images[i].source && post[i].uniforms
            == images[i].uniforms)
    &&& (forall|i: int|
        0 <= i < n && i < m ==> (#[trigger] post[i]).handle == pre[i].handle && post[i].mouse_x
            == pre[i].mouse_x && post[i].mouse_y == pre[i].mouse_y && post[i].done == pre[i].done)
    &&& (forall|i: int|
        m <= i < n ==> (#[trigger] post[i]).handle == pre_next + (i - m) && post[i].mouse_x == 0
            && post[i].mouse_y == 0 && !post[i].done)
    &&& (forall|i: int| n <= i < m ==> #[trigger] post[i] == pre[i])
    &&& post_next == pre_next + (if n >= m {
        n - m
    } else {
        0
    })
}

/// The ordered collection of all live windows; it owns every display.
pub struct WindowSet {
    displays: Vec<DisplayState>,
    next_handle: u64,
}

impl View for WindowSet {
    type V = Seq<DisplayModel>;

    closed spec fn view(&self) -> Seq<DisplayModel> {
        self.displays@.map_values(|d: DisplayState| d@)
    }
}

impl WindowSet {
    /// Window handles are strictly increasing along the list and all lie
    /// below the next fresh handle, so a fresh handle never collides.
    pub closed spec fn wf(&self) -> bool {
        &&& (forall|i: int, j: int|
            0 <= i < j < self.displays@.len() ==> (#[trigger] self.displays@[i]).handle < (
            #[trigger] self.displays@[j]).handle)
        &&& (forall|i: int|
            0 <= i < self.displays@.len() ==> (#[trigger] self.displays@[i]).handle
                < self.next_handle)
    }

    /// The next handle a newly created window would get.
    pub closed spec fn spec_next_handle(&self) -> u64 {
        self.next_handle
    }

    pub fn new() -> (r: WindowSet)
        ensures
            r.wf(),
            r@.len() == 0,
            r.spec_next_handle() == 0,
    {
        WindowSet { displays: Vec::new(), next_handle: 0 }
    }

    pub fn count(&self) -> (r: usize)
        ensures
            r == self@.len(),
    {
        self.displays.len()
    }

    pub fn is_empty(&self) -> (r: bool)
        ensures
            r == (self@.len() == 0),
    {
        self.displays.len() == 0
    }

    pub fn get(&self, i: usize) -> (d: &DisplayState)
        requires
            i < self@.len(),
        ensures
            d@ == self@[i as int],
    {
        &self.displays[i]
    }

    /// Reconciles the window list against a newly analysed image list
    /// (matched by ordinal position): every position with an image carries
    /// the new source and uniform set afterwards, the first positions reuse
    /// their window and cached state, positions the list grew past get fresh
    /// windows with the mouse at the origin, and positions the list shrank
    /// away from are left untouched.
    pub fn reconcile(&mut self, images: &Vec<ImageDescriptor>)
        requires
            old(self).wf(),
            old(self).spec_next_handle() + images@.len() <= u64::MAX,
        ensures
            final(self).wf(),
            reconciled(
                old(self)@,
                old(self).spec_next_handle() as int,
                crate::images::images_model(images@),
                final(self)@,
                final(self).spec_next_handle() as int,
            ),
            forall|i: int, j: int|
                old(self)@.len() <= i < images@.len() && 0 <= j < old(self)@.len() ==> (
                #[trigger] final(self)@[i]).handle != (#[trigger] old(self)@[j]).handle,
    {
        let ghost pre = self.displays@;
        let ghost pre_next = self.next_handle;
        let ghost m0 = pre.len() as int;
        let n = images.len();
        let mut i: usize = 0;
        while i < n
            invariant
                i <= n,
                n == images@.len(),
                m0 == pre.len(),
                pre_next + n <= u64::MAX,
                self.next_handle == pre_next + (if i > m0 {
                    i - m0
                } else {
                    0
                }),
                self.displays@.len() == (if i > m0 {
                    i as int
                } else {
                    m0
                }),
                forall|j: int| i <= j < m0 ==> #[trigger] self.displays@[j] == pre[j],
                forall|j: int|
                    0 <= j < i ==> (#[trigger] self.displays@[j])@.source == images@[j].source@
                        && self.displays@[j]@.uniforms == images@[j].uniforms@,
                forall|j: int|
                    0 <= j < i && j < m0 ==> (#[trigger] self.displays@[j]).handle == pre[j].handle
                        && self.displays@[j].mouse_x == pre[j].mouse_x
                        && self.displays@[j].mouse_y == pre[j].mouse_y && self.displays@[j].done
                        == pre[j].done,
                forall|j: int|
                    m0 <= j < i ==> (#[trigger] self.displays@[j]).handle == pre_next + (j - m0)
                        && self.displays@[j].mouse_x == 0 && self.displays@[j].mouse_y == 0
                        && !self.displays@[j].done,
                forall|j: int, k: int|
                    0 <= j < k < self.displays@.len() ==> (#[trigger] self.displays@[j]).handle < (
                    #[trigger] self.displays@[k]).handle,
                forall|j: int|
                    0 <= j < self.displays@.len() ==> (#[trigger] self.displays@[j]).handle
                        < self.next_handle,
            decreases n - i,
        {
            let ghost before = self.displays@;
            if i < self.displays.len() {
                let d = self.displays.remove(i);
                let nd = DisplayState {
                    handle: d.handle,
                    source: images[i].source.duplicate(),
                    uniforms: copy_uniform_list(&images[i].uniforms),
                    mouse_x: d.mouse_x,
                    mouse_y: d.mouse_y,
                    done: d.done,
                };
                self.displays.insert(i, nd);
                proof {
                    assert(self.displays@ =~= before.update(i as int, self.displays@[i as int]));
                }
            } else {
                let nd = DisplayState {
                    handle: self.next_handle,
                    source: images[i].source.duplicate(),
                    uniforms: copy_uniform_list(&images[i].uniforms),
                    mouse_x: 0,
                    mouse_y: 0,
                    done: false,
                };
                self.displays.push(nd);
                self.next_handle = self.next_handle + 1;
            }
            i = i + 1;
        }
    }

    /// Applies the outcome of a reload: a failed parse or analysis leaves the
    /// window list exactly as it was and hands the error back; a successful
    /// one reconciles against the produced images.
    pub fn apply_script_result(&mut self, parsed: Result<Vec<ImageDescriptor>, ScriptError>) -> (r:
        Result<(), ScriptError>)
        requires
            old(self).wf(),
            parsed matches Ok(images) ==> old(self).spec_next_handle() + images@.len()
                <= u64::MAX,
        ensures
            final(self).wf(),
            parsed matches Err(e) ==> *final(self) == *old(self) && r == Err::<(), ScriptError>(e),
            parsed matches Ok(images) ==> r is Ok && reconciled(
                old(self)@,
                old(self).spec_next_handle() as int,
                crate::images::images_model(images@),
                final(self)@,
                final(self).spec_next_handle() as int,
            ),
    {
        match parsed {
            Ok(images) => {
                self.reconcile(&images);
                Ok(())
            },
            Err(e) => Err(e),
        }
    }

    /// Folds one frame's events into the window at position `i` and reports
    /// whether this frame takes a snapshot of it; every other window and the
    /// handle supply are untouched.
    pub fn poll_display(&mut self, i: usize, events: &Vec<crate::frame::Event>, width: u32, height: u32) -> (snap: bool)
        requires
            old(self).wf(),
            i < old(self)@.len(),
        ensures
            final(self).wf(),
            final(self)@.len() == old(self)@.len(),
            final(self).spec_next_handle() == old(self).spec_next_handle(),
            forall|j: int|
                0 <= j < old(self)@.len() && j != i ==> #[trigger] final(self)@[j] == old(
                    self,
                )@[j],
            ({
                let r = crate::frame::poll_events(
                    crate::frame::PollModel {
                        mouse_x: old(self)@[i as int].mouse_x,
                        mouse_y: old(self)@[i as int].mouse_y,
                        done: old(self)@[i as int].done,
                        snap: false,
                    },
                    events@,
                    width as int,
                    height as int,
                );
                &&& final(self)@[i as int].mouse_x == r.mouse_x
                &&& final(self)@[i as int].mouse_y == r.mouse_y
                &&& final(self)@[i as int].done == r.done
                &&& snap == r.snap
                &&& final(self)@[i as int].handle == old(self)@[i as int].handle
                &&& final(self)@[i as int].source == old(self)@[i as int].source
                &&& final(self)@[i as int].uniforms == old(self)@[i as int].uniforms
            }),
    {
        let mut d = self.displays.remove(i);
        let snap = crate::frame::process_events(&mut d, events, width, height);
        self.displays.insert(i, d);
        proof {
            assert(self.displays@ =~= old(self).displays@.update(i as int, self.displays@[i as int]));
        }
        snap
    }

    /// Removes every window marked done, keeping the rest in order.
    pub fn retain_open(&mut self)
        requires
            old(self).wf(),
        ensures
            final(self).wf(),
            final(self)@ == live_displays(old(self)@),
            final(self).spec_next_handle() == old(self).spec_next_handle(),
    {
        let ghost pre = self.displays@;
        let ghost pre_models = self@;
        let m = self.displays.len();
        let mut kept: Vec<DisplayState> = Vec::new();
        let mut j: usize = 0;
        while j < m
            invariant
                j <= m,
                m == pre.len(),
                self.next_handle == old(self).spec_next_handle(),
                forall|x: int, y: int|
                    0 <= x < y < pre.len() ==> (#[trigger] pre[x]).handle < (
                    #[trigger] pre[y]).handle,
                forall|x: int| 0 <= x < pre.len() ==> (#[trigger] pre[x]).handle < self.next_handle,
                self.displays@ =~= pre.skip(j as int),
                kept@.map_values(|d: DisplayState| d@) =~= live_displays(
                    pre_models.take(j as int),
                ),
                pre_models =~= pre.map_values(|d: DisplayState| d@),
                forall|x: int, y: int|
                    0 <= x < y < kept@.len() ==> (#[trigger] kept@[x]).handle < (
                    #[trigger] kept@[y]).handle,
                forall|x: int|
                    0 <= x < kept@.len() ==> (#[trigger] kept@[x]).handle < self.next_handle,
                j < m ==> forall|x: int|
                    0 <= x < kept@.len() ==> (#[trigger] kept@[x]).handle < pre[j as int].handle,
            decreases m - j,
        {
            let d = self.displays.remove(0);
            proof {
                assert(pre.skip(j as int)[0] == pre[j as int]);
                assert(pre.skip(j as int).remove(0) =~= pre.skip(j as int + 1));
                assert(pre_models.take(j as int + 1).drop_last() =~= pre_models.take(j as int));
                assert(pre_models.take(j as int + 1).last() == pre_models[j as int]);
                reveal(Seq::filter);
            }
            if !d.done {
                kept.push(d);
            }
            j = j + 1;
        }
        proof {
            assert(pre_models.take(m as int) =~= pre_models);
        }
        self.displays = kept;
        proof {
            assert(self@ =~= live_displays(old(self)@));
        }
    }
}

} // verus!
