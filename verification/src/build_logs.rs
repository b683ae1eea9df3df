//! The build-log corpus: compiler-style lines shown while a
//! compilation stage plays.
use vstd::prelude::*;

use crate::random::{random_lines, RandomSource};
use crate::text::{clean_lines, spec_clean_lines};

verus! {

/// The embedded build-log text.
pub const BUILD_LOG_TEXT: &'static str = "  CC [M]  drivers/net/ethernet/intel/e1000/e1000_main.o\n  CC [M]  drivers/gpu/drm/drm_ioctl.o\n  LD [M]  drivers/net/ethernet/intel/e1000/e1000.o\n  CC      kernel/sched/core.o\n  CC      kernel/time/timer.o\n  AR      built-in.a\n  CC [M]  sound/pci/hda/hda_intel.o\n  CC      mm/page_alloc.o\n  LD [M]  sound/pci/hda/snd-hda-intel.o\n  CC      fs/ext4/inode.o\n  CC [M]  drivers/usb/core/hub.o\n  OBJCOPY arch/x86/boot/setup.bin\n  CC      net/ipv4/tcp_input.o\n  LD      vmlinux.o\n  MODPOST vmlinux.symvers\n";

/// An immutable, ordered corpus of non-empty build-log lines.
pub struct BuildLogs {
    logs: Vec<String>,
}

impl View for BuildLogs {
    type V = Seq<Seq<char>>;

    closed spec fn view(&self) -> Seq<Seq<char>> {
        self.logs.deep_view()
    }
}

impl BuildLogs {
    /// Load the embedded build-log corpus: its non-blank lines, in
    /// order.
    pub fn load() -> (r: BuildLogs)
        ensures
            r@ == spec_clean_lines(BUILD_LOG_TEXT@),
    {
        BuildLogs { logs: clean_lines(BUILD_LOG_TEXT) }
    }

    /// Load a corpus from arbitrary raw text.
    pub fn from_text(text: &str) -> (r: BuildLogs)
        ensures
            r@ == spec_clean_lines(text@),
    {
        BuildLogs { logs: clean_lines(text) }
    }

    /// All lines of the corpus, in order.
    pub fn all_logs(&self) -> (r: &Vec<String>)
        ensures
            r.deep_view() == self@,
    {
        &self.logs
    }

    /// `count` lines drawn independently and uniformly, with
    /// replacement.  An empty corpus yields an empty batch for any
    /// `count`; otherwise the batch has exactly `count` lines, each a
    /// line of the corpus.
    pub fn random_batch<R: RandomSource>(&self, count: usize, rng: &mut R) -> (r: Vec<String>)
        ensures
            self@.len() == 0 ==> r.deep_view() == Seq::<Seq<char>>::empty(),
            self@.len() > 0 ==> r.deep_view().len() == count,
            forall|i: int|
                0 <= i < r.deep_view().len() ==> self@.contains(#[trigger] r.deep_view()[i]),
    {
        random_lines(&self.logs, count, rng)
    }
}

impl Default for BuildLogs {
    fn default() -> (r: BuildLogs)
        ensures
            r@ == spec_clean_lines(BUILD_LOG_TEXT@),
    {
        BuildLogs::load()
    }
}

} // verus!
