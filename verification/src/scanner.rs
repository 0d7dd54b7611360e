//! The scan engine's decisions: task generation over the target × port
//! cross product, the chunking policy, the connect retry policy, the
//! response-read policy, and how a task's outcome becomes a result record.
//! The surrounding process runs sockets and timers and feeds every outcome
//! back in as a plain value.

use vstd::prelude::*;

verus! {

use crate::types::{Address, ConnectOutcome, ScanResult, ScanTask, Service};

/// Total connection attempts per task: the first try plus retries.
pub const MAX_CONNECT_ATTEMPTS: u32 = 2;

/// Fixed delay before a retry after an ambiguous timeout, in milliseconds.
pub const CONNECT_RETRY_DELAY_MS: u64 = 500;

/// Targets per batch when scanning a single host list.
pub const HOST_CHUNK_SIZE: usize = 1000;

/// Targets per batch when scanning several hosts or a subnet.
pub const SUBNET_CHUNK_SIZE: usize = 100;

/// Capacity of the response buffer: reading stops once this many bytes
/// have arrived.
pub const RESPONSE_CAPACITY: usize = 1024;

/// Read deadline for one response capture, in milliseconds.
pub const READ_DEADLINE_MS: u64 = 2000;

/// The scan configuration: targets, inclusive port range, concurrency
/// budget, per-connect timeout in milliseconds, and the service-detection
/// switch.
#[derive(Clone, Debug)]
pub struct Scanner {
    pub targets: Vec<Address>,
    pub port_start: u16,
    pub port_end: u16,
    pub concurrency: usize,
    pub timeout: u64,
    pub service_detection: bool,
}

/// One task per (address, port) pair, ports varying fastest: task `k`
/// scans target `k / ports` on port `start + k % ports`.
pub open spec fn spec_tasks(targets: Seq<Address>, start: u16, end: u16) -> Seq<ScanTask>
    recommends
        start <= end,
{
    let ports = end - start + 1;
    Seq::new(
        (targets.len() * ports) as nat,
        |k: int|
            ScanTask {
                addr: targets[k / ports],
                port: (start + k % ports) as u16,
            },
    )
}

impl Scanner {
    pub fn new(
        targets: Vec<Address>,
        port_start: u16,
        port_end: u16,
        concurrency: usize,
        timeout: u64,
        service_detection: bool,
    ) -> (s: Scanner)
        requires
            1 <= port_start <= port_end,
        ensures
            s.targets == targets,
            s.port_start == port_start,
            s.port_end == port_end,
            s.concurrency == concurrency,
            s.timeout == timeout,
            s.service_detection == service_detection,
    {
        Scanner { targets, port_start, port_end, concurrency, timeout, service_detection }
    }

    /// The batching policy: single-host scans batch many addresses, scans
    /// of several hosts or a subnet batch fewer to bound peak memory.
    pub fn chunk_size(&self) -> (n: usize)
        ensures
            n == if self.targets@.len() > 1 {
                SUBNET_CHUNK_SIZE as int
            } else {
                HOST_CHUNK_SIZE as int
            },
    {
        if self.targets.len() > 1 {
            SUBNET_CHUNK_SIZE
        } else {
            HOST_CHUNK_SIZE
        }
    }
}

/// Generates one scan task per (address, port) pair in the cross product of
/// the targets and the inclusive port range: exactly
/// `targets.len() * (end - start + 1)` tasks.
pub fn generate_tasks(targets: &[Address], start: u16, end: u16) -> (r: Vec<ScanTask>)
    requires
        start <= end,
        targets@.len() * ((end - start + 1) as int) <= usize::MAX as int,
    ensures
        r@ == spec_tasks(targets@, start, end),
        r@.len() == targets@.len() * ((end - start + 1) as int),
{
    let ports: usize = (end - start) as usize + 1;
    let n: usize = targets.len();
    let mut out: Vec<ScanTask> = Vec::new();
    let mut i: usize = 0;
    proof {
        assert(n * ports == targets@.len() * ((end - start + 1) as int));
    }
    while i < n
        invariant
            n == targets@.len(),
            ports == end - start + 1,
            start <= end,
            n * ports <= usize::MAX,
            0 <= i <= n,
            out@.len() == i * ports,
            forall|k: int| 0 <= k < i * ports ==> out@[k] == spec_tasks(targets@, start, end)[k],
        decreases n - i,
    {
        let mut j: usize = 0;
        proof {
            assert((i + 1) * ports <= n * ports) by (nonlinear_arith)
                requires
                    i < n,
                    ports >= 1,
            ;
            assert(i * ports + ports == (i + 1) * ports) by (nonlinear_arith);
        }
        while j < ports
            invariant
                n == targets@.len(),
                ports == end - start + 1,
                start <= end,
                n * ports <= usize::MAX,
                0 <= i < n,
                0 <= j <= ports,
                i * ports + ports <= n * ports,
                out@.len() == i * ports + j,
                forall|k: int|
                    0 <= k < i * ports + j ==> out@[k] == spec_tasks(targets@, start, end)[k],
            decreases ports - j,
        {
            let port: u16 = start + (j as u16);
            out.push(ScanTask { addr: targets[i], port });
            proof {
                let k = i * ports + j;
                assert(k / (ports as int) == i && k % (ports as int) == j) by (nonlinear_arith)
                    requires
                        0 <= j < ports,
                        0 <= i,
                        ports > 0,
                        k == i * ports + j,
                ;
                assert(out@[k] == spec_tasks(targets@, start, end)[k]);
            }
            j += 1;
        }
        i += 1;
    }
    proof {
        assert(out@ =~= spec_tasks(targets@, start, end));
    }
    out
}

/// What the engine does next with one connection attempt.
#[derive(Clone, Copy, Debug, PartialEq, Eq, Structural)]
pub enum ConnectPlan {
    /// The port is open: go on to probing.
    Proceed,
    /// Ambiguous timeout with attempts left: wait this many milliseconds,
    /// then try again.
    RetryAfter(u64),
    /// Definite refusal, error, or retries exhausted: the task ends with no
    /// result.
    GiveUp,
}

/// The retry policy for one connection attempt, written over the outcome
/// and the zero-based attempt index.
pub open spec fn spec_connect_step(outcome: ConnectOutcome, attempt: u32) -> ConnectPlan {
    match outcome {
        ConnectOutcome::Open => ConnectPlan::Proceed,
        ConnectOutcome::Closed => ConnectPlan::GiveUp,
        ConnectOutcome::Failed(_) => ConnectPlan::GiveUp,
        ConnectOutcome::Timeout => if attempt + 1 < MAX_CONNECT_ATTEMPTS {
            ConnectPlan::RetryAfter(CONNECT_RETRY_DELAY_MS as u64)
        } else {
            ConnectPlan::GiveUp
        },
    }
}

/// Decides what follows one connection attempt: an open connection
/// proceeds; refusal or error gives up at once; a timeout is retried after
/// a fixed delay until the attempt budget is spent.
pub fn connect_step(outcome: &ConnectOutcome, attempt: u32) -> (p: ConnectPlan)
    requires
        attempt < MAX_CONNECT_ATTEMPTS,
    ensures
        p == spec_connect_step(*outcome, attempt),
{
    match outcome {
        ConnectOutcome::Open => ConnectPlan::Proceed,
        ConnectOutcome::Closed => ConnectPlan::GiveUp,
        ConnectOutcome::Failed(_) => ConnectPlan::GiveUp,
        ConnectOutcome::Timeout => {
            if attempt + 1 < MAX_CONNECT_ATTEMPTS {
                ConnectPlan::RetryAfter(CONNECT_RETRY_DELAY_MS)
            } else {
                ConnectPlan::GiveUp
            }
        },
    }
}

/// One event observed while reading a response.
#[derive(Clone, Copy, Debug, PartialEq, Eq, Structural)]
pub enum ReadEvent {
    /// This many bytes arrived; zero means the peer closed the connection.
    Data(usize),
    /// The read would block; stop and keep what was captured.
    WouldBlock,
    /// Some other I/O error; stop and keep what was captured.
    Failed,
    /// The read deadline elapsed; the truncated response is not an error.
    DeadlineExpired,
}

/// What the reader does after one event.
#[derive(Clone, Copy, Debug, PartialEq, Eq, Structural)]
pub enum ReadPlan {
    /// Keep reading; this many bytes are accumulated so far.
    Continue(usize),
    /// Stop; this many bytes were captured in all.
    Stop(usize),
}

/// The read policy: accumulate data until the peer closes, the buffer
/// fills, the read would block, the deadline elapses, or an error arrives;
/// whatever was captured is kept in every case.
pub open spec fn spec_read_step(total: usize, event: ReadEvent) -> ReadPlan {
    match event {
        ReadEvent::Data(n) => if n == 0 {
            ReadPlan::Stop(total)
        } else if total + n < RESPONSE_CAPACITY {
            ReadPlan::Continue((total + n) as usize)
        } else {
            ReadPlan::Stop((total + n) as usize)
        },
        ReadEvent::WouldBlock => ReadPlan::Stop(total),
        ReadEvent::Failed => ReadPlan::Stop(total),
        ReadEvent::DeadlineExpired => ReadPlan::Stop(total),
    }
}

/// Decides whether to keep reading after one event.
pub fn read_step(total: usize, event: &ReadEvent) -> (p: ReadPlan)
    requires
        total <= RESPONSE_CAPACITY,
        event matches ReadEvent::Data(n) ==> n <= RESPONSE_CAPACITY - total,
    ensures
        p == spec_read_step(total, *event),
{
    match event {
        ReadEvent::Data(n) => {
            if *n == 0 {
                ReadPlan::Stop(total)
            } else if total + *n < RESPONSE_CAPACITY {
                ReadPlan::Continue(total + *n)
            } else {
                ReadPlan::Stop(total + *n)
            }
        },
        ReadEvent::WouldBlock => ReadPlan::Stop(total),
        ReadEvent::Failed => ReadPlan::Stop(total),
        ReadEvent::DeadlineExpired => ReadPlan::Stop(total),
    }
}

/// The records of the tasks that produced one, in completion order: a
/// closed or filtered port contributes nothing.
pub open spec fn spec_gather(outcomes: Seq<Option<ScanResult>>) -> Seq<ScanResult>
    decreases outcomes.len(),
{
    if outcomes.len() == 0 {
        Seq::empty()
    } else {
        spec_gather(outcomes.drop_last()) + (match outcomes.last() {
            Option::Some(x) => seq![x],
            Option::None => Seq::empty(),
        })
    }
}

/// Collects the records of the tasks that produced one, keeping completion
/// order.
pub fn gather_results(outcomes: Vec<Option<ScanResult>>) -> (r: Vec<ScanResult>)
    ensures
        r@ == spec_gather(outcomes@),
{
    let ghost full = outcomes@;
    let mut rest = outcomes;
    let mut stack: Vec<ScanResult> = Vec::new();
    proof {
        assert(spec_gather(full) =~= spec_gather(rest@) + stack@.reverse());
    }
    loop
        invariant
            spec_gather(full) == spec_gather(rest@) + stack@.reverse(),
        ensures
            rest@.len() == 0,
            spec_gather(full) == stack@.reverse(),
        decreases rest@.len(),
    {
        let ghost before = rest@;
        match rest.pop() {
            Some(item) => {
                proof {
                    assert(before.drop_last() =~= rest@);
                }
                match item {
                    Some(x) => {
                        proof {
                            assert(stack@.push(x).reverse() =~= seq![x] + stack@.reverse());
                            assert(spec_gather(before) + stack@.reverse() =~= spec_gather(rest@)
                                + stack@.push(x).reverse());
                        }
                        stack.push(x);
                    },
                    None => {
                        proof {
                            assert(spec_gather(before) =~= spec_gather(rest@));
                        }
                    },
                }
            },
            None => {
                proof {
                    assert(spec_gather(rest@) =~= Seq::<ScanResult>::empty());
                }
                break ;
            },
        }
    }
    let mut out: Vec<ScanResult> = Vec::new();
    proof {
        assert(out@ + stack@.reverse() =~= spec_gather(full));
    }
    loop
        invariant
            out@ + stack@.reverse() == spec_gather(full),
        ensures
            out@ == spec_gather(full),
        decreases stack@.len(),
    {
        let ghost before = stack@;
        match stack.pop() {
            Some(x) => {
                proof {
                    assert(before.drop_last() =~= stack@);
                    assert(before.reverse() =~= seq![before.last()] + stack@.reverse());
                    assert(out@.push(x) + stack@.reverse() =~= out@ + before.reverse());
                }
                out.push(x);
            },
            None => {
                proof {
                    assert(stack@.reverse() =~= Seq::<ScanResult>::empty());
                    assert(out@ + stack@.reverse() =~= out@);
                }
                break ;
            },
        }
    }
    out
}

/// What service detection observed on an open connection.
#[derive(Clone, Debug)]
pub struct DetectionOutcome {
    pub service: Option<Service>,
    pub raw_response: String,
}

/// Turns one finished task into its record. A port that never opened
/// produces nothing. An open port always produces a record; with service
/// detection off, or when detection itself failed, the record carries no
/// service and an empty response.
pub fn settle_task(
    addr: Address,
    port: u16,
    connected: bool,
    service_detection: bool,
    detection: Option<DetectionOutcome>,
) -> (r: Option<ScanResult>)
    ensures
        !connected ==> r is None,
        connected ==> r is Some && r->0.ip == addr && r->0.port == port,
        connected ==> match detection {
            Option::Some(d) => if service_detection {
                r->0.service == d.service && r->0.raw_response == d.raw_response
            } else {
                r->0.service is None && r->0.raw_response@.len() == 0
            },
            Option::None => r->0.service is None && r->0.raw_response@.len() == 0,
        },
{
    if !connected {
        return None;
    }
    if service_detection {
        match detection {
            Some(d) => Some(
                ScanResult { ip: addr, port, service: d.service, raw_response: d.raw_response },
            ),
            None => Some(
                ScanResult { ip: addr, port, service: None, raw_response: String::new() },
            ),
        }
    } else {
        Some(ScanResult { ip: addr, port, service: None, raw_response: String::new() })
    }
}

} // verus!
