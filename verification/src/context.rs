use vstd::prelude::*;

use vstd::hash_map::HashMapWithView;
use vstd::string::StrSliceExecFns;

use crate::engine::Engine;
use crate::error::Error;

verus! {

/// The configuration a context carries: rendering-quality knobs and the
/// styling switches for document layout.
///
/// The minimum graphics line width is held in thousandths of a pixel, so
/// that the knob stays a plain integer; `0` is the engine's default, as for
/// the native fractional value.
#[derive(Debug, PartialEq, Eq)]
pub struct ContextState {
    pub aa_level: i32,
    pub text_aa_level: i32,
    pub graphics_aa_level: i32,
    pub graphics_min_line_width_milli: u32,
    pub use_document_css: bool,
    pub user_css: Option<String>,
    pub icc_enabled: bool,
}

/// The settings every context starts with: anti-aliasing at 8 bits on all
/// three knobs, no minimum line width, document-embedded styling honoured,
/// no user style override, and color management on.
pub open spec fn default_context_state() -> ContextState {
    ContextState {
        aa_level: 8,
        text_aa_level: 8,
        graphics_aa_level: 8,
        graphics_min_line_width_milli: 0,
        use_document_css: true,
        user_css: None,
        icc_enabled: true,
    }
}

impl ContextState {
    /// The settings a freshly cloned context carries.
    pub fn engine_defaults() -> (s: ContextState)
        ensures
            s == default_context_state(),
    {
        ContextState {
            aa_level: 8,
            text_aa_level: 8,
            graphics_aa_level: 8,
            graphics_min_line_width_milli: 0,
            use_document_css: true,
            user_css: None,
            icc_enabled: true,
        }
    }

    /// An exact copy, field for field.
    fn snapshot(&self) -> (s: ContextState)
        ensures
            s == *self,
    {
        ContextState {
            aa_level: self.aa_level,
            text_aa_level: self.text_aa_level,
            graphics_aa_level: self.graphics_aa_level,
            graphics_min_line_width_milli: self.graphics_min_line_width_milli,
            use_document_css: self.use_document_css,
            user_css: match &self.user_css {
                Some(css) => Some(css.clone()),
                None => None,
            },
            icc_enabled: self.icc_enabled,
        }
    }
}

/// The process-wide context bookkeeping: the one base handle that the whole
/// process shares, and the clone each thread lazily takes from it.
///
/// The base context is created once; every thread that asks for a context
/// receives its own clone, cached for the thread's lifetime, so that no two
/// threads ever work through the same handle. The host side serialises the
/// cloning step itself (it holds a lock around the call); this state and
/// its contracts say what the step does.
pub struct ContextRegistry {
    base_handle: u64,
    threads: HashMapWithView<u64, u64>,
    state: HashMapWithView<u64, ContextState>,
}

impl ContextRegistry {
    /// The handle of the process-wide base context.
    pub closed spec fn base(self) -> u64 {
        self.base_handle
    }

    /// Which thread holds which context handle.
    pub closed spec fn thread_map(self) -> Map<u64, u64> {
        self.threads@
    }

    /// The handles of all live context clones.
    pub closed spec fn context_dom(self) -> Set<u64> {
        self.state@.dom()
    }

    /// Whether `h` is a live context clone.
    pub open spec fn has_context(self, h: u64) -> bool {
        self.context_dom().contains(h)
    }

    /// The configuration the clone `h` currently carries.
    pub closed spec fn state_of(self, h: u64) -> ContextState {
        self.state@[h]
    }

    /// The registry is sound against the engine: the base context is live,
    /// every clone is live and distinct from the base, every thread's cached
    /// handle is a clone, and no two threads share a handle.
    pub open spec fn wf(self, e: Engine) -> bool {
        &&& e.wf()
        &&& e.live(self.base())
        &&& !self.has_context(self.base())
        &&& forall|t: u64| #[trigger]
            self.thread_map().contains_key(t) ==> self.has_context(self.thread_map()[t])
        &&& forall|t1: u64, t2: u64|
            #![trigger self.thread_map()[t1], self.thread_map()[t2]]
            self.thread_map().contains_key(t1) && self.thread_map().contains_key(t2) && t1 != t2
                ==> self.thread_map()[t1] != self.thread_map()[t2]
        &&& forall|h: u64| #[trigger]
            self.context_dom().contains(h) ==> e.live(h) && h != self.base()
    }

    /// Everything but the configuration of clone `h` is as it was: same base,
    /// same thread cache, same set of clones, and every other clone's
    /// configuration untouched. This is what makes a configuration change
    /// thread-confined: it can reach no other thread's context.
    pub open spec fn preserves_others(pre: ContextRegistry, post: ContextRegistry, h: u64) -> bool {
        &&& post.base() == pre.base()
        &&& post.thread_map() == pre.thread_map()
        &&& post.context_dom() == pre.context_dom()
        &&& forall|x: u64|
            x != h && #[trigger] pre.has_context(x) ==> post.state_of(x) == pre.state_of(x)
    }

    /// The one-time base initialization: the engine allocates the shared
    /// base context that all later clones derive from. Run once per process,
    /// before any thread asks for a context.
    pub fn new(e: &mut Engine) -> (reg: ContextRegistry)
        requires
            old(e).wf(),
            old(e).can_alloc(),
        ensures
            final(e).wf(),
            reg.wf(*final(e)),
            reg.thread_map() == Map::<u64, u64>::empty(),
            reg.context_dom() == Set::<u64>::empty(),
            !old(e).live(reg.base()),
            final(e).allocations() == old(e).allocations().insert(reg.base(), 1),
            final(e).next_handle() == old(e).next_handle() + 1,
    {
        let base_handle = e.allocate();
        ContextRegistry {
            base_handle,
            threads: HashMapWithView::new(),
            state: HashMapWithView::new(),
        }
    }

    /// The configuration of clone `h`, read through the registry.
    fn slot(&self, h: u64) -> (s: &ContextState)
        requires
            self.has_context(h),
        ensures
            *s == self.state_of(h),
    {
        self.state.get(&h).unwrap()
    }

    /// A thread is done with its clone: the cached handle is forgotten and
    /// its reference given back, freeing the allocation if it was the last.
    /// Models the teardown that runs when a thread ends.
    pub fn drop_thread_context(&mut self, e: &mut Engine, thread_id: u64)
        requires
            old(self).wf(*old(e)),
            old(self).thread_map().contains_key(thread_id),
        ensures
            final(self).wf(*final(e)),
            final(e).wf(),
            final(self).base() == old(self).base(),
            final(self).thread_map() == old(self).thread_map().remove(thread_id),
            final(self).context_dom() == old(self).context_dom().remove(
                old(self).thread_map()[thread_id],
            ),
            ({
                let ch = old(self).thread_map()[thread_id];
                &&& old(e).refcount(ch) > 1 ==> final(e).allocations() == old(
                    e,
                ).allocations().insert(ch, (old(e).refcount(ch) - 1) as u64)
                &&& old(e).refcount(ch) == 1 ==> final(e).allocations() == old(
                    e,
                ).allocations().remove(ch)
            }),
            final(e).next_handle() == old(e).next_handle(),
    {
        let ch = *self.threads.get(&thread_id).unwrap();
        self.threads.remove(&thread_id);
        self.state.remove(&ch);
        e.release(ch);
        proof {
            assert forall|t1: u64, t2: u64|
                #![trigger self.thread_map()[t1], self.thread_map()[t2]]
                self.thread_map().contains_key(t1) && self.thread_map().contains_key(t2) && t1
                    != t2 implies self.thread_map()[t1] != self.thread_map()[t2] by {
                assert(old(self).thread_map().contains_key(t1));
                assert(old(self).thread_map().contains_key(t2));
            }
            assert forall|t: u64| #[trigger]
                self.thread_map().contains_key(t) implies self.has_context(
                self.thread_map()[t],
            ) by {
                assert(old(self).thread_map().contains_key(t));
                assert(old(self).thread_map()[t] != ch);
            }
        }
    }

    /// Process exit: after every thread clone is gone, the base context
    /// gives back its reference, freeing the engine's shared state if no
    /// explicit share of the base is still held.
    pub fn teardown(self, e: &mut Engine)
        requires
            self.wf(*old(e)),
            self.context_dom() == Set::<u64>::empty(),
        ensures
            final(e).wf(),
            old(e).refcount(self.base()) > 1 ==> final(e).allocations() == old(
                e,
            ).allocations().insert(self.base(), (old(e).refcount(self.base()) - 1) as u64),
            old(e).refcount(self.base()) == 1 ==> final(e).allocations() == old(
                e,
            ).allocations().remove(self.base()),
            final(e).next_handle() == old(e).next_handle(),
    {
        e.release(self.base_handle);
    }
}

/// A thread's handle into the engine: the wrapper every engine call goes
/// through. A value of this type stands for the non-null pointer a thread
/// received when its clone was made; the configuration it reaches lives in
/// the registry.
#[derive(Clone, Copy, Debug, PartialEq, Eq, Structural)]
pub struct Context {
    inner: u64,
}

impl Context {
    /// The native handle this context stands for.
    pub closed spec fn handle(self) -> u64 {
        self.inner
    }

    /// The bare handle value, as it would be passed to a native call.
    pub fn raw(&self) -> (h: u64)
        ensures
            h == self.handle(),
    {
        self.inner
    }

    /// The calling thread's context, created and cached on first use.
    ///
    /// If the thread already took its clone, that same handle comes back and
    /// nothing changes. Otherwise the engine clones the base context: the
    /// thread receives a fresh, live, non-null handle of its own, carrying
    /// the default configuration. Either way the handle is distinct from the
    /// base and from every other thread's handle.
    pub fn get(reg: &mut ContextRegistry, e: &mut Engine, thread_id: u64) -> (c: Context)
        requires
            old(reg).wf(*old(e)),
            old(e).can_alloc(),
        ensures
            final(reg).wf(*final(e)),
            final(e).wf(),
            final(reg).base() == old(reg).base(),
            old(e).next_handle() <= final(e).next_handle() <= old(e).next_handle() + 1,
            final(reg).has_context(c.handle()),
            c.handle() != final(reg).base(),
            final(reg).thread_map() == old(reg).thread_map().insert(thread_id, c.handle()),
            forall|x: u64| #[trigger]
                old(reg).has_context(x) ==> final(reg).has_context(x) && final(reg).state_of(x)
                    == old(reg).state_of(x),
            old(reg).thread_map().contains_key(thread_id) ==> {
                &&& c.handle() == old(reg).thread_map()[thread_id]
                &&& *final(e) == *old(e)
                &&& final(reg).context_dom() == old(reg).context_dom()
            },
            !old(reg).thread_map().contains_key(thread_id) ==> {
                &&& !old(e).live(c.handle())
                &&& final(e).allocations() == old(e).allocations().insert(c.handle(), 1)
                &&& final(reg).context_dom() == old(reg).context_dom().insert(c.handle())
                &&& final(reg).state_of(c.handle()) == default_context_state()
            },
    {
        if reg.threads.contains_key(&thread_id) {
            let h = *reg.threads.get(&thread_id).unwrap();
            proof {
                assert(reg.thread_map().insert(thread_id, h) =~= reg.thread_map());
            }
            Context { inner: h }
        } else {
            let h = e.allocate();
            reg.state.insert(h, ContextState::engine_defaults());
            reg.threads.insert(thread_id, h);
            proof {
                assert forall|t1: u64, t2: u64|
                    #![trigger reg.thread_map()[t1], reg.thread_map()[t2]]
                    reg.thread_map().contains_key(t1) && reg.thread_map().contains_key(t2) && t1
                        != t2 implies reg.thread_map()[t1] != reg.thread_map()[t2] by {
                    if t1 != thread_id && t2 != thread_id {
                        assert(old(reg).thread_map().contains_key(t1));
                        assert(old(reg).thread_map().contains_key(t2));
                    } else if t1 == thread_id {
                        assert(old(reg).thread_map().contains_key(t2));
                        assert(old(reg).has_context(old(reg).thread_map()[t2]));
                        assert(old(e).live(old(reg).thread_map()[t2]));
                    } else {
                        assert(old(reg).thread_map().contains_key(t1));
                        assert(old(reg).has_context(old(reg).thread_map()[t1]));
                        assert(old(e).live(old(reg).thread_map()[t1]));
                    }
                }
                assert forall|t: u64| #[trigger]
                    reg.thread_map().contains_key(t) implies reg.has_context(
                    reg.thread_map()[t],
                ) by {
                    if t != thread_id {
                        assert(old(reg).thread_map().contains_key(t));
                    }
                }
                assert(reg.context_dom() =~= old(reg).context_dom().insert(h));
            }
            Context { inner: h }
        }
    }

    /// The anti-aliasing level of this thread's context.
    pub fn aa_level(&self, reg: &ContextRegistry) -> (level: i32)
        requires
            reg.has_context(self.handle()),
        ensures
            level == reg.state_of(self.handle()).aa_level,
    {
        reg.slot(self.inner).aa_level
    }

    /// The text anti-aliasing level of this thread's context.
    pub fn text_aa_level(&self, reg: &ContextRegistry) -> (level: i32)
        requires
            reg.has_context(self.handle()),
        ensures
            level == reg.state_of(self.handle()).text_aa_level,
    {
        reg.slot(self.inner).text_aa_level
    }

    /// The graphics anti-aliasing level of this thread's context.
    pub fn graphics_aa_level(&self, reg: &ContextRegistry) -> (level: i32)
        requires
            reg.has_context(self.handle()),
        ensures
            level == reg.state_of(self.handle()).graphics_aa_level,
    {
        reg.slot(self.inner).graphics_aa_level
    }

    /// The minimum stroked-line width, in thousandths of a pixel.
    pub fn graphics_min_line_width(&self, reg: &ContextRegistry) -> (milli: u32)
        requires
            reg.has_context(self.handle()),
        ensures
            milli == reg.state_of(self.handle()).graphics_min_line_width_milli,
    {
        reg.slot(self.inner).graphics_min_line_width_milli
    }

    /// Whether document-embedded styling is honoured on this thread.
    pub fn use_document_css(&self, reg: &ContextRegistry) -> (used: bool)
        requires
            reg.has_context(self.handle()),
        ensures
            used == reg.state_of(self.handle()).use_document_css,
    {
        reg.slot(self.inner).use_document_css
    }

    /// Whether color management is enabled on this thread.
    pub fn icc_enabled(&self, reg: &ContextRegistry) -> (enabled: bool)
        requires
            reg.has_context(self.handle()),
        ensures
            enabled == reg.state_of(self.handle()).icc_enabled,
    {
        reg.slot(self.inner).icc_enabled
    }

    /// Sets the anti-aliasing level for subsequent operations on this
    /// thread; no other thread's context changes.
    pub fn set_aa_level(&self, reg: &mut ContextRegistry, bits: i32)
        requires
            old(reg).has_context(self.handle()),
        ensures
            final(reg).has_context(self.handle()),
            final(reg).state_of(self.handle()) == (ContextState {
                aa_level: bits,
                ..old(reg).state_of(self.handle())
            }),
            ContextRegistry::preserves_others(*old(reg), *final(reg), self.handle()),
    {
        let mut updated = reg.slot(self.inner).snapshot();
        updated.aa_level = bits;
        reg.state.insert(self.inner, updated);
        proof {
            assert(reg.context_dom() =~= old(reg).context_dom());
        }
    }

    /// Sets the text anti-aliasing level for this thread.
    pub fn set_text_aa_level(&self, reg: &mut ContextRegistry, bits: i32)
        requires
            old(reg).has_context(self.handle()),
        ensures
            final(reg).has_context(self.handle()),
            final(reg).state_of(self.handle()) == (ContextState {
                text_aa_level: bits,
                ..old(reg).state_of(self.handle())
            }),
            ContextRegistry::preserves_others(*old(reg), *final(reg), self.handle()),
    {
        let mut updated = reg.slot(self.inner).snapshot();
        updated.text_aa_level = bits;
        reg.state.insert(self.inner, updated);
        proof {
            assert(reg.context_dom() =~= old(reg).context_dom());
        }
    }

    /// Sets the graphics anti-aliasing level for this thread.
    pub fn set_graphics_aa_level(&self, reg: &mut ContextRegistry, bits: i32)
        requires
            old(reg).has_context(self.handle()),
        ensures
            final(reg).has_context(self.handle()),
            final(reg).state_of(self.handle()) == (ContextState {
                graphics_aa_level: bits,
                ..old(reg).state_of(self.handle())
            }),
            ContextRegistry::preserves_others(*old(reg), *final(reg), self.handle()),
    {
        let mut updated = reg.slot(self.inner).snapshot();
        updated.graphics_aa_level = bits;
        reg.state.insert(self.inner, updated);
        proof {
            assert(reg.context_dom() =~= old(reg).context_dom());
        }
    }

    /// Sets the minimum stroked-line width for this thread, in thousandths
    /// of a pixel.
    pub fn set_graphics_min_line_width(&self, reg: &mut ContextRegistry, milli: u32)
        requires
            old(reg).has_context(self.handle()),
        ensures
            final(reg).has_context(self.handle()),
            final(reg).state_of(self.handle()) == (ContextState {
                graphics_min_line_width_milli: milli,
                ..old(reg).state_of(self.handle())
            }),
            ContextRegistry::preserves_others(*old(reg), *final(reg), self.handle()),
    {
        let mut updated = reg.slot(self.inner).snapshot();
        updated.graphics_min_line_width_milli = milli;
        reg.state.insert(self.inner, updated);
        proof {
            assert(reg.context_dom() =~= old(reg).context_dom());
        }
    }

    /// Switches whether document-embedded styling is honoured on this
    /// thread.
    pub fn set_use_document_css(&self, reg: &mut ContextRegistry, should_use: bool)
        requires
            old(reg).has_context(self.handle()),
        ensures
            final(reg).has_context(self.handle()),
            final(reg).state_of(self.handle()) == (ContextState {
                use_document_css: should_use,
                ..old(reg).state_of(self.handle())
            }),
            ContextRegistry::preserves_others(*old(reg), *final(reg), self.handle()),
    {
        let mut updated = reg.slot(self.inner).snapshot();
        updated.use_document_css = should_use;
        reg.state.insert(self.inner, updated);
        proof {
            assert(reg.context_dom() =~= old(reg).context_dom());
        }
    }

    /// Turns color management on for this thread.
    pub fn enable_icc(&self, reg: &mut ContextRegistry)
        requires
            old(reg).has_context(self.handle()),
        ensures
            final(reg).has_context(self.handle()),
            final(reg).state_of(self.handle()) == (ContextState {
                icc_enabled: true,
                ..old(reg).state_of(self.handle())
            }),
            ContextRegistry::preserves_others(*old(reg), *final(reg), self.handle()),
    {
        let mut updated = reg.slot(self.inner).snapshot();
        updated.icc_enabled = true;
        reg.state.insert(self.inner, updated);
        proof {
            assert(reg.context_dom() =~= old(reg).context_dom());
        }
    }

    /// Turns color management off for this thread.
    pub fn disable_icc(&self, reg: &mut ContextRegistry)
        requires
            old(reg).has_context(self.handle()),
        ensures
            final(reg).has_context(self.handle()),
            final(reg).state_of(self.handle()) == (ContextState {
                icc_enabled: false,
                ..old(reg).state_of(self.handle())
            }),
            ContextRegistry::preserves_others(*old(reg), *final(reg), self.handle()),
    {
        let mut updated = reg.slot(self.inner).snapshot();
        updated.icc_enabled = false;
        reg.state.insert(self.inner, updated);
        proof {
            assert(reg.context_dom() =~= old(reg).context_dom());
        }
    }

    /// Installs a user style override for this thread.
    ///
    /// The native representation terminates a string at the first NUL, so a
    /// style sheet holding an embedded NUL cannot be handed over faithfully:
    /// it is rejected with an encoding error and nothing changes. Any other
    /// string is stored exactly.
    pub fn set_user_css(&self, reg: &mut ContextRegistry, css: &str) -> (r: Result<(), Error>)
        requires
            old(reg).has_context(self.handle()),
        ensures
            final(reg).has_context(self.handle()),
            ContextRegistry::preserves_others(*old(reg), *final(reg), self.handle()),
            r is Ok <==> (forall|i: int| 0 <= i < css@.len() ==> css@[i] != '\0'),
            r is Ok ==> ({
                let pre = old(reg).state_of(self.handle());
                let post = final(reg).state_of(self.handle());
                &&& post.user_css matches Some(stored) && stored@ == css@
                &&& post.aa_level == pre.aa_level
                &&& post.text_aa_level == pre.text_aa_level
                &&& post.graphics_aa_level == pre.graphics_aa_level
                &&& post.graphics_min_line_width_milli == pre.graphics_min_line_width_milli
                &&& post.use_document_css == pre.use_document_css
                &&& post.icc_enabled == pre.icc_enabled
            }),
            r is Err ==> r == Err::<(), Error>(Error::StringConversion) && final(reg).state_of(
                self.handle(),
            ) == old(reg).state_of(self.handle()),
    {
        let n = css.unicode_len();
        let mut i: usize = 0;
        while i < n
            invariant
                *reg == *old(reg),
                old(reg).has_context(self.handle()),
                n == css@.len(),
                i <= n,
                forall|j: int| 0 <= j < i ==> css@[j] != '\0',
            decreases n - i,
        {
            if css.get_char(i) == '\0' {
                return Err(Error::StringConversion);
            }
            i = i + 1;
        }
        let mut updated = reg.slot(self.inner).snapshot();
        updated.user_css = Some(css.to_owned());
        reg.state.insert(self.inner, updated);
        proof {
            assert(reg.context_dom() =~= old(reg).context_dom());
        }
        Ok(())
    }

    /// The user style override of this thread's context, if one was set.
    pub fn user_css<'a>(&self, reg: &'a ContextRegistry) -> (css: Option<&'a str>)
        requires
            reg.has_context(self.handle()),
        ensures
            match css {
                Some(s) => {
                    &&& reg.state_of(self.handle()).user_css matches Some(stored)
                    &&& s@ == stored@
                },
                None => reg.state_of(self.handle()).user_css is None,
            },
    {
        match &reg.slot(self.inner).user_css {
            Some(css) => Some(css.as_str()),
            None => None,
        }
    }
}

/// Law: two distinct threads never share a context. Whatever each of them
/// holds in the thread cache points at its own live clone, and the two
/// clones are different allocations, each valid independently of the other.
pub proof fn lemma_distinct_threads_distinct_contexts(
    reg: ContextRegistry,
    e: Engine,
    t1: u64,
    t2: u64,
)
    requires
        reg.wf(e),
        t1 != t2,
        reg.thread_map().contains_key(t1),
        reg.thread_map().contains_key(t2),
    ensures
        reg.thread_map()[t1] != reg.thread_map()[t2],
        e.live(reg.thread_map()[t1]),
        e.live(reg.thread_map()[t2]),
{
    assert(reg.has_context(reg.thread_map()[t1]));
    assert(reg.has_context(reg.thread_map()[t2]));
}

/// Law: a configuration change on one thread's context leaves every other
/// thread's context exactly as it was, and the registry stays sound. This
/// is the thread-confinement of the mutating configuration operations.
pub proof fn lemma_config_change_is_thread_confined(
    pre: ContextRegistry,
    post: ContextRegistry,
    e: Engine,
    h: u64,
)
    requires
        pre.wf(e),
        ContextRegistry::preserves_others(pre, post, h),
    ensures
        post.wf(e),
        forall|t: u64| #[trigger]
            post.thread_map().contains_key(t) ==> pre.thread_map().contains_key(t)
                && post.thread_map()[t] == pre.thread_map()[t],
        forall|t: u64|
            pre.thread_map().contains_key(t) && pre.thread_map()[t] != h
                ==> #[trigger] post.state_of(pre.thread_map()[t]) == pre.state_of(
                pre.thread_map()[t],
            ),
{
}

} // verus!
