//! How much the client holds in memory.

use vstd::prelude::*;
use vstd::string::StringExecFns;
use crate::text::{decimal, decimal_text};

verus! {

/// The sizes of the client's collections at one moment.
#[derive(Clone, Copy, Debug, PartialEq, Eq, Structural)]
pub struct MemoryDiagnostics {
    pub group_cache: u64,
    pub device_registry_cache: u64,
    pub lid_pn_lid_entries: u64,
    pub lid_pn_pn_entries: u64,
    pub recent_messages: u64,
    pub sender_key_device_cache: u64,
    pub message_retry_counts: u64,
    pub undecryptable_dispatched: u64,
    pub pdo_pending_requests: u64,
    pub session_locks: u64,
    pub chat_lanes: u64,
    pub response_waiters: usize,
    pub node_waiters: usize,
    pub pending_retries: usize,
    pub presence_subscriptions: usize,
    pub app_state_key_requests: usize,
    pub app_state_syncing: usize,
    pub signal_cache_sessions: usize,
    pub signal_cache_identities: usize,
    pub signal_cache_sender_keys: usize,
    pub chatstate_handlers: usize,
    pub custom_enc_handlers: usize,
}

/// A line of the report: a label and a number.
pub open spec fn report_line(label: Seq<char>, n: int) -> Seq<char> {
    label + decimal_text(n as nat) + "\n"@
}

fn push_line(out: &mut String, label: &str, n: u64)
    ensures
        final(out)@ == old(out)@ + report_line(label@, n as int),
{
    out.append(label);
    out.append(decimal(n).as_str());
    out.append("\n");
    assert(out@ =~= old(out)@ + report_line(label@, n as int));
}

impl MemoryDiagnostics {
    /// The caches that forget entries with time.
    pub open spec fn timed_text(self) -> Seq<char> {
        "=== Memory Diagnostics ===\n"@ + "--- Moka caches (TTL-bounded) ---\n"@ + report_line(
            "  group_cache:            "@,
            self.group_cache as int,
        ) + report_line("  device_registry_cache:  "@, self.device_registry_cache as int)
            + report_line("  lid_pn (lid):           "@, self.lid_pn_lid_entries as int)
            + report_line("  lid_pn (pn):            "@, self.lid_pn_pn_entries as int)
            + report_line("  recent_messages:        "@, self.recent_messages as int)
            + report_line("  sk_device_cache:        "@, self.sender_key_device_cache as int)
            + report_line("  message_retry_counts:   "@, self.message_retry_counts as int)
            + report_line("  undec_dispatched:       "@, self.undecryptable_dispatched as int)
            + report_line("  pdo_pending_requests:   "@, self.pdo_pending_requests as int)
    }

    /// The caches that are only bounded in size.
    pub open spec fn sized_text(self) -> Seq<char> {
        "--- Moka caches (capacity-only) ---\n"@ + report_line(
            "  session_locks:          "@,
            self.session_locks as int,
        ) + report_line("  chat_lanes:             "@, self.chat_lanes as int)
    }

    /// The collections without bounds.
    pub open spec fn unbounded_text(self) -> Seq<char> {
        "--- Unbounded collections ---\n"@ + report_line(
            "  response_waiters:       "@,
            self.response_waiters as int,
        ) + report_line("  node_waiters:           "@, self.node_waiters as int) + report_line(
            "  pending_retries:        "@,
            self.pending_retries as int,
        ) + report_line("  presence_subscriptions: "@, self.presence_subscriptions as int)
            + report_line("  app_state_key_requests: "@, self.app_state_key_requests as int)
            + report_line("  app_state_syncing:      "@, self.app_state_syncing as int)
            + report_line("  signal_sessions:        "@, self.signal_cache_sessions as int)
            + report_line("  signal_identities:      "@, self.signal_cache_identities as int)
            + report_line("  signal_sender_keys:     "@, self.signal_cache_sender_keys as int)
    }

    /// The handlers.
    pub open spec fn handler_text(self) -> Seq<char> {
        "--- Misc ---\n"@ + report_line(
            "  chatstate_handlers:     "@,
            self.chatstate_handlers as int,
        ) + report_line("  custom_enc_handlers:    "@, self.custom_enc_handlers as int)
    }

    /// The report: a line for each size, under headings.
    pub open spec fn report(self) -> Seq<char> {
        self.timed_text() + self.sized_text() + self.unbounded_text() + self.handler_text()
    }

    fn push_timed(&self, out: &mut String)
        ensures
            final(out)@ == old(out)@ + self.timed_text(),
    {
        let ghost start = out@;
        out.append("=== Memory Diagnostics ===\n");
        out.append("--- Moka caches (TTL-bounded) ---\n");
        push_line(out, "  group_cache:            ", self.group_cache);
        push_line(out, "  device_registry_cache:  ", self.device_registry_cache);
        push_line(out, "  lid_pn (lid):           ", self.lid_pn_lid_entries);
        push_line(out, "  lid_pn (pn):            ", self.lid_pn_pn_entries);
        push_line(out, "  recent_messages:        ", self.recent_messages);
        push_line(out, "  sk_device_cache:        ", self.sender_key_device_cache);
        push_line(out, "  message_retry_counts:   ", self.message_retry_counts);
        push_line(out, "  undec_dispatched:       ", self.undecryptable_dispatched);
        push_line(out, "  pdo_pending_requests:   ", self.pdo_pending_requests);
        assert(out@ =~= start + self.timed_text());
    }

    fn push_sized(&self, out: &mut String)
        ensures
            final(out)@ == old(out)@ + self.sized_text(),
    {
        let ghost start = out@;
        out.append("--- Moka caches (capacity-only) ---\n");
        push_line(out, "  session_locks:          ", self.session_locks);
        push_line(out, "  chat_lanes:             ", self.chat_lanes);
        assert(out@ =~= start + self.sized_text());
    }

    fn push_unbounded(&self, out: &mut String)
        ensures
            final(out)@ == old(out)@ + self.unbounded_text(),
    {
        let ghost start = out@;
        out.append("--- Unbounded collections ---\n");
        push_line(out, "  response_waiters:       ", self.response_waiters as u64);
        push_line(out, "  node_waiters:           ", self.node_waiters as u64);
        push_line(out, "  pending_retries:        ", self.pending_retries as u64);
        push_line(out, "  presence_subscriptions: ", self.presence_subscriptions as u64);
        push_line(out, "  app_state_key_requests: ", self.app_state_key_requests as u64);
        push_line(out, "  app_state_syncing:      ", self.app_state_syncing as u64);
        push_line(out, "  signal_sessions:        ", self.signal_cache_sessions as u64);
        push_line(out, "  signal_identities:      ", self.signal_cache_identities as u64);
        push_line(out, "  signal_sender_keys:     ", self.signal_cache_sender_keys as u64);
        assert(out@ =~= start + self.unbounded_text());
    }

    fn push_handlers(&self, out: &mut String)
        ensures
            final(out)@ == old(out)@ + self.handler_text(),
    {
        let ghost start = out@;
        out.append("--- Misc ---\n");
        push_line(out, "  chatstate_handlers:     ", self.chatstate_handlers as u64);
        push_line(out, "  custom_enc_handlers:    ", self.custom_enc_handlers as u64);
        assert(out@ =~= start + self.handler_text());
    }

    /// The report.
    pub fn to_text(&self) -> (r: String)
        ensures
            r@ == self.report(),
    {
        let mut out = String::new();
        self.push_timed(&mut out);
        self.push_sized(&mut out);
        self.push_unbounded(&mut out);
        self.push_handlers(&mut out);
        assert(out@ =~= self.report());
        out
    }
}

/// Whether a report holds a line that shows a size behind its label.
pub open spec fn tells(report: Seq<char>, label: Seq<char>, n: nat) -> bool {
    exists|before: Seq<char>, behind: Seq<char>|
        report == #[trigger] (before + (label + decimal_text(n) + seq!['\n']) + behind)
}

proof fn one_more(text: Seq<char>, label: Seq<char>, n: nat)
    ensures
        tells(text + report_line(label, n as int), label, n),
        forall|other: Seq<char>, m: nat| #[trigger]
            tells(text, other, m) ==> tells(text + report_line(label, n as int), other, m),
{
    reveal_strlit("\n");
    let line = report_line(label, n as int);
    assert(line =~= label + decimal_text(n) + seq!['\n']);
    assert(text + line =~= text + (label + decimal_text(n) + seq!['\n']) + Seq::<char>::empty());
    assert forall|other: Seq<char>, m: nat| #[trigger] tells(text, other, m) implies tells(
        text + line,
        other,
        m,
    ) by {
        still_told(text, line, other, m);
    }
}

proof fn still_told(text: Seq<char>, more: Seq<char>, label: Seq<char>, n: nat)
    requires
        tells(text, label, n),
    ensures
        tells(text + more, label, n),
        tells(more + text, label, n),
{
    let line = label + decimal_text(n) + seq!['\n'];
    let (before, behind) = choose|before: Seq<char>, behind: Seq<char>|
        text == #[trigger] (before + line + behind);
    assert(text + more =~= before + line + (behind + more));
    assert(more + text =~= (more + before) + line + behind);
}

proof fn timed_sizes_are_told(sizes: MemoryDiagnostics)
    ensures
        tells(sizes.timed_text(), "  group_cache:            "@, sizes.group_cache as nat),
        tells(sizes.timed_text(), "  device_registry_cache:  "@, sizes.device_registry_cache as nat),
        tells(sizes.timed_text(), "  lid_pn (lid):           "@, sizes.lid_pn_lid_entries as nat),
        tells(sizes.timed_text(), "  lid_pn (pn):            "@, sizes.lid_pn_pn_entries as nat),
        tells(sizes.timed_text(), "  recent_messages:        "@, sizes.recent_messages as nat),
        tells(sizes.timed_text(), "  sk_device_cache:        "@, sizes.sender_key_device_cache as nat),
        tells(sizes.timed_text(), "  message_retry_counts:   "@, sizes.message_retry_counts as nat),
        tells(sizes.timed_text(), "  undec_dispatched:       "@, sizes.undecryptable_dispatched as nat),
        tells(sizes.timed_text(), "  pdo_pending_requests:   "@, sizes.pdo_pending_requests as nat),
{
    let t0 = "=== Memory Diagnostics ===\n"@ + "--- Moka caches (TTL-bounded) ---\n"@;
    let t1 = t0 + report_line("  group_cache:            "@, sizes.group_cache as int);
    one_more(t0, "  group_cache:            "@, sizes.group_cache as nat);
    let t2 = t1 + report_line("  device_registry_cache:  "@, sizes.device_registry_cache as int);
    one_more(t1, "  device_registry_cache:  "@, sizes.device_registry_cache as nat);
    let t3 = t2 + report_line("  lid_pn (lid):           "@, sizes.lid_pn_lid_entries as int);
    one_more(t2, "  lid_pn (lid):           "@, sizes.lid_pn_lid_entries as nat);
    let t4 = t3 + report_line("  lid_pn (pn):            "@, sizes.lid_pn_pn_entries as int);
    one_more(t3, "  lid_pn (pn):            "@, sizes.lid_pn_pn_entries as nat);
    let t5 = t4 + report_line("  recent_messages:        "@, sizes.recent_messages as int);
    one_more(t4, "  recent_messages:        "@, sizes.recent_messages as nat);
    let t6 = t5 + report_line("  sk_device_cache:        "@, sizes.sender_key_device_cache as int);
    one_more(t5, "  sk_device_cache:        "@, sizes.sender_key_device_cache as nat);
    let t7 = t6 + report_line("  message_retry_counts:   "@, sizes.message_retry_counts as int);
    one_more(t6, "  message_retry_counts:   "@, sizes.message_retry_counts as nat);
    let t8 = t7 + report_line("  undec_dispatched:       "@, sizes.undecryptable_dispatched as int);
    one_more(t7, "  undec_dispatched:       "@, sizes.undecryptable_dispatched as nat);
    let t9 = t8 + report_line("  pdo_pending_requests:   "@, sizes.pdo_pending_requests as int);
    one_more(t8, "  pdo_pending_requests:   "@, sizes.pdo_pending_requests as nat);
    assert(sizes.timed_text() == t9);
}

proof fn sized_sizes_are_told(sizes: MemoryDiagnostics)
    ensures
        tells(sizes.sized_text(), "  session_locks:          "@, sizes.session_locks as nat),
        tells(sizes.sized_text(), "  chat_lanes:             "@, sizes.chat_lanes as nat),
{
    let t0 = "--- Moka caches (capacity-only) ---\n"@;
    let t1 = t0 + report_line("  session_locks:          "@, sizes.session_locks as int);
    one_more(t0, "  session_locks:          "@, sizes.session_locks as nat);
    let t2 = t1 + report_line("  chat_lanes:             "@, sizes.chat_lanes as int);
    one_more(t1, "  chat_lanes:             "@, sizes.chat_lanes as nat);
    assert(sizes.sized_text() == t2);
}

proof fn unbounded_sizes_are_told(sizes: MemoryDiagnostics)
    ensures
        tells(sizes.unbounded_text(), "  response_waiters:       "@, sizes.response_waiters as nat),
        tells(sizes.unbounded_text(), "  node_waiters:           "@, sizes.node_waiters as nat),
        tells(sizes.unbounded_text(), "  pending_retries:        "@, sizes.pending_retries as nat),
        tells(sizes.unbounded_text(), "  presence_subscriptions: "@, sizes.presence_subscriptions as nat),
        tells(sizes.unbounded_text(), "  app_state_key_requests: "@, sizes.app_state_key_requests as nat),
        tells(sizes.unbounded_text(), "  app_state_syncing:      "@, sizes.app_state_syncing as nat),
        tells(sizes.unbounded_text(), "  signal_sessions:        "@, sizes.signal_cache_sessions as nat),
        tells(sizes.unbounded_text(), "  signal_identities:      "@, sizes.signal_cache_identities as nat),
        tells(sizes.unbounded_text(), "  signal_sender_keys:     "@, sizes.signal_cache_sender_keys as nat),
{
    let t0 = "--- Unbounded collections ---\n"@;
    let t1 = t0 + report_line("  response_waiters:       "@, sizes.response_waiters as int);
    one_more(t0, "  response_waiters:       "@, sizes.response_waiters as nat);
    let t2 = t1 + report_line("  node_waiters:           "@, sizes.node_waiters as int);
    one_more(t1, "  node_waiters:           "@, sizes.node_waiters as nat);
    let t3 = t2 + report_line("  pending_retries:        "@, sizes.pending_retries as int);
    one_more(t2, "  pending_retries:        "@, sizes.pending_retries as nat);
    let t4 = t3 + report_line("  presence_subscriptions: "@, sizes.presence_subscriptions as int);
    one_more(t3, "  presence_subscriptions: "@, sizes.presence_subscriptions as nat);
    let t5 = t4 + report_line("  app_state_key_requests: "@, sizes.app_state_key_requests as int);
    one_more(t4, "  app_state_key_requests: "@, sizes.app_state_key_requests as nat);
    let t6 = t5 + report_line("  app_state_syncing:      "@, sizes.app_state_syncing as int);
    one_more(t5, "  app_state_syncing:      "@, sizes.app_state_syncing as nat);
    let t7 = t6 + report_line("  signal_sessions:        "@, sizes.signal_cache_sessions as int);
    one_more(t6, "  signal_sessions:        "@, sizes.signal_cache_sessions as nat);
    let t8 = t7 + report_line("  signal_identities:      "@, sizes.signal_cache_identities as int);
    one_more(t7, "  signal_identities:      "@, sizes.signal_cache_identities as nat);
    let t9 = t8 + report_line("  signal_sender_keys:     "@, sizes.signal_cache_sender_keys as int);
    one_more(t8, "  signal_sender_keys:     "@, sizes.signal_cache_sender_keys as nat);
    assert(sizes.unbounded_text() == t9);
}

proof fn handler_sizes_are_told(sizes: MemoryDiagnostics)
    ensures
        tells(sizes.handler_text(), "  chatstate_handlers:     "@, sizes.chatstate_handlers as nat),
        tells(sizes.handler_text(), "  custom_enc_handlers:    "@, sizes.custom_enc_handlers as nat),
{
    let t0 = "--- Misc ---\n"@;
    let t1 = t0 + report_line("  chatstate_handlers:     "@, sizes.chatstate_handlers as int);
    one_more(t0, "  chatstate_handlers:     "@, sizes.chatstate_handlers as nat);
    let t2 = t1 + report_line("  custom_enc_handlers:    "@, sizes.custom_enc_handlers as int);
    one_more(t1, "  custom_enc_handlers:    "@, sizes.custom_enc_handlers as nat);
    assert(sizes.handler_text() == t2);
}

/// The report shows each size in a line of its own, behind the label of that size.
pub proof fn every_size_is_told(sizes: MemoryDiagnostics)
    ensures
        tells(sizes.report(), "  group_cache:            "@, sizes.group_cache as nat),
        tells(sizes.report(), "  device_registry_cache:  "@, sizes.device_registry_cache as nat),
        tells(sizes.report(), "  lid_pn (lid):           "@, sizes.lid_pn_lid_entries as nat),
        tells(sizes.report(), "  lid_pn (pn):            "@, sizes.lid_pn_pn_entries as nat),
        tells(sizes.report(), "  recent_messages:        "@, sizes.recent_messages as nat),
        tells(sizes.report(), "  sk_device_cache:        "@, sizes.sender_key_device_cache as nat),
        tells(sizes.report(), "  message_retry_counts:   "@, sizes.message_retry_counts as nat),
        tells(sizes.report(), "  undec_dispatched:       "@, sizes.undecryptable_dispatched as nat),
        tells(sizes.report(), "  pdo_pending_requests:   "@, sizes.pdo_pending_requests as nat),
        tells(sizes.report(), "  session_locks:          "@, sizes.session_locks as nat),
        tells(sizes.report(), "  chat_lanes:             "@, sizes.chat_lanes as nat),
        tells(sizes.report(), "  response_waiters:       "@, sizes.response_waiters as nat),
        tells(sizes.report(), "  node_waiters:           "@, sizes.node_waiters as nat),
        tells(sizes.report(), "  pending_retries:        "@, sizes.pending_retries as nat),
        tells(sizes.report(), "  presence_subscriptions: "@, sizes.presence_subscriptions as nat),
        tells(sizes.report(), "  app_state_key_requests: "@, sizes.app_state_key_requests as nat),
        tells(sizes.report(), "  app_state_syncing:      "@, sizes.app_state_syncing as nat),
        tells(sizes.report(), "  signal_sessions:        "@, sizes.signal_cache_sessions as nat),
        tells(sizes.report(), "  signal_identities:      "@, sizes.signal_cache_identities as nat),
        tells(sizes.report(), "  signal_sender_keys:     "@, sizes.signal_cache_sender_keys as nat),
        tells(sizes.report(), "  chatstate_handlers:     "@, sizes.chatstate_handlers as nat),
        tells(sizes.report(), "  custom_enc_handlers:    "@, sizes.custom_enc_handlers as nat),
{
    timed_sizes_are_told(sizes);
    sized_sizes_are_told(sizes);
    unbounded_sizes_are_told(sizes);
    handler_sizes_are_told(sizes);
    let a = sizes.timed_text();
    let b = sizes.sized_text();
    let c = sizes.unbounded_text();
    let d = sizes.handler_text();
    let report = sizes.report();
    assert(report =~= a + (b + c + d));
    assert(report =~= (a + (b + (c + d))));
    assert(report =~= ((a + b) + (c + d)));
    assert(report =~= ((a + b + c) + d));
    still_told(a, b + c + d, "  group_cache:            "@, sizes.group_cache as nat);
    still_told(a, b + c + d, "  device_registry_cache:  "@, sizes.device_registry_cache as nat);
    still_told(a, b + c + d, "  lid_pn (lid):           "@, sizes.lid_pn_lid_entries as nat);
    still_told(a, b + c + d, "  lid_pn (pn):            "@, sizes.lid_pn_pn_entries as nat);
    still_told(a, b + c + d, "  recent_messages:        "@, sizes.recent_messages as nat);
    still_told(a, b + c + d, "  sk_device_cache:        "@, sizes.sender_key_device_cache as nat);
    still_told(a, b + c + d, "  message_retry_counts:   "@, sizes.message_retry_counts as nat);
    still_told(a, b + c + d, "  undec_dispatched:       "@, sizes.undecryptable_dispatched as nat);
    still_told(a, b + c + d, "  pdo_pending_requests:   "@, sizes.pdo_pending_requests as nat);
    still_told(b, c + d, "  session_locks:          "@, sizes.session_locks as nat);
    still_told(b + (c + d), a, "  session_locks:          "@, sizes.session_locks as nat);
    still_told(b, c + d, "  chat_lanes:             "@, sizes.chat_lanes as nat);
    still_told(b + (c + d), a, "  chat_lanes:             "@, sizes.chat_lanes as nat);
    still_told(c, d, "  response_waiters:       "@, sizes.response_waiters as nat);
    still_told(c + d, a + b, "  response_waiters:       "@, sizes.response_waiters as nat);
    still_told(c, d, "  node_waiters:           "@, sizes.node_waiters as nat);
    still_told(c + d, a + b, "  node_waiters:           "@, sizes.node_waiters as nat);
    still_told(c, d, "  pending_retries:        "@, sizes.pending_retries as nat);
    still_told(c + d, a + b, "  pending_retries:        "@, sizes.pending_retries as nat);
    still_told(c, d, "  presence_subscriptions: "@, sizes.presence_subscriptions as nat);
    still_told(c + d, a + b, "  presence_subscriptions: "@, sizes.presence_subscriptions as nat);
    still_told(c, d, "  app_state_key_requests: "@, sizes.app_state_key_requests as nat);
    still_told(c + d, a + b, "  app_state_key_requests: "@, sizes.app_state_key_requests as nat);
    still_told(c, d, "  app_state_syncing:      "@, sizes.app_state_syncing as nat);
    still_told(c + d, a + b, "  app_state_syncing:      "@, sizes.app_state_syncing as nat);
    still_told(c, d, "  signal_sessions:        "@, sizes.signal_cache_sessions as nat);
    still_told(c + d, a + b, "  signal_sessions:        "@, sizes.signal_cache_sessions as nat);
    still_told(c, d, "  signal_identities:      "@, sizes.signal_cache_identities as nat);
    still_told(c + d, a + b, "  signal_identities:      "@, sizes.signal_cache_identities as nat);
    still_told(c, d, "  signal_sender_keys:     "@, sizes.signal_cache_sender_keys as nat);
    still_told(c + d, a + b, "  signal_sender_keys:     "@, sizes.signal_cache_sender_keys as nat);
    still_told(d, a + b + c, "  chatstate_handlers:     "@, sizes.chatstate_handlers as nat);
    still_told(d, a + b + c, "  custom_enc_handlers:    "@, sizes.custom_enc_handlers as nat);
}

/// The sizes stand under headings, by how the collections are bounded.
pub proof fn sizes_stand_under_headings(sizes: MemoryDiagnostics)
    ensures
        ("=== Memory Diagnostics ===\n"@ + "--- Moka caches (TTL-bounded) ---\n"@).is_prefix_of(
            sizes.timed_text(),
        ),
        "--- Moka caches (capacity-only) ---\n"@.is_prefix_of(sizes.sized_text()),
        "--- Unbounded collections ---\n"@.is_prefix_of(sizes.unbounded_text()),
        "--- Misc ---\n"@.is_prefix_of(sizes.handler_text()),
        sizes.report() == sizes.timed_text() + (sizes.sized_text() + (sizes.unbounded_text()
            + sizes.handler_text())),
{
    let a = "=== Memory Diagnostics ===\n"@ + "--- Moka caches (TTL-bounded) ---\n"@;
    let b = "--- Moka caches (capacity-only) ---\n"@;
    let c = "--- Unbounded collections ---\n"@;
    let d = "--- Misc ---\n"@;
    assert(sizes.timed_text().take(a.len() as int) =~= a);
    assert(sizes.sized_text().take(b.len() as int) =~= b);
    assert(sizes.unbounded_text().take(c.len() as int) =~= c);
    assert(sizes.handler_text().take(d.len() as int) =~= d);
    assert(sizes.report() =~= sizes.timed_text() + (sizes.sized_text() + (sizes.unbounded_text()
        + sizes.handler_text())));
}

} // verus!
