//! Host capability probing: turning what the machine reports into the
//! platform's architecture and execution-type capability lists, and the
//! registration payload built from them.
//!
//! Reading the machine (the architecture probe's raw output, memory and
//! disk sizes, whether backend tools answer) is done by the caller; the
//! functions here only decide what the readings mean.

use vstd::prelude::*;
use vstd::string::*;
use crate::model::AgentError;
use crate::model::PlatformArchitecture;
use crate::model::PlatformExecutionType;

verus! {

/// Classifies the raw output of the machine's architecture probe (one name
/// followed by a newline). Only arm64/aarch64 and x86_64 machines are
/// recognized.
pub fn get_device_architecture(probe_output: &str) -> (r: Result<
    PlatformArchitecture,
    AgentError,
>)
    ensures
        r == Ok::<PlatformArchitecture, AgentError>(PlatformArchitecture::Arm64) <==> (
        probe_output@ == "arm64\n"@ || probe_output@ == "aarch64\n"@),
        r == Ok::<PlatformArchitecture, AgentError>(PlatformArchitecture::X86_64) <==> probe_output@
            == "x86_64\n"@,
        r is Err ==> r == Err::<PlatformArchitecture, AgentError>(AgentError::UnknownArchitecture),
{
    broadcast use vstd::string::group_string_axioms;

    proof {
        reveal_strlit("arm64\n");
        reveal_strlit("aarch64\n");
        reveal_strlit("x86_64\n");
        assert("arm64\n"@.len() == 6);
        assert("x86_64\n"@.len() == 7);
        assert("arm64\n"@ != "x86_64\n"@);
        assert("aarch64\n"@ != "x86_64\n"@);
    }
    let probe = probe_output.to_owned();
    if probe == "arm64\n".to_owned() || probe == "aarch64\n".to_owned() {
        Ok(PlatformArchitecture::Arm64)
    } else if probe == "x86_64\n".to_owned() {
        Ok(PlatformArchitecture::X86_64)
    } else {
        Err(AgentError::UnknownArchitecture)
    }
}

/// Architectures offered by a host: WebAssembly first when the sandbox tool
/// answers, then the machine's own architecture.
pub open spec fn spec_platform_architectures(
    device: PlatformArchitecture,
    wasmer_available: bool,
) -> Seq<PlatformArchitecture> {
    if wasmer_available {
        seq![PlatformArchitecture::Wasm, device]
    } else {
        seq![device]
    }
}

/// Execution types offered by a host: container first when available, then
/// the WebAssembly sandbox when available, then always bare metal.
pub open spec fn spec_platform_execution_types(
    wasmer_available: bool,
    docker_available: bool,
) -> Seq<PlatformExecutionType> {
    if wasmer_available && docker_available {
        seq![
            PlatformExecutionType::Docker,
            PlatformExecutionType::Wasmer,
            PlatformExecutionType::BareMetal,
        ]
    } else if docker_available {
        seq![PlatformExecutionType::Docker, PlatformExecutionType::BareMetal]
    } else if wasmer_available {
        seq![PlatformExecutionType::Wasmer, PlatformExecutionType::BareMetal]
    } else {
        seq![PlatformExecutionType::BareMetal]
    }
}

/// The architecture capability list of this host.
pub fn get_platform_architectures(device: PlatformArchitecture, wasmer_available: bool) -> (r: Vec<
    PlatformArchitecture,
>)
    ensures
        r@ == spec_platform_architectures(device, wasmer_available),
{
    let mut r: Vec<PlatformArchitecture> = Vec::new();
    if wasmer_available {
        r.push(PlatformArchitecture::Wasm);
    }
    r.push(device);
    proof {
        assert(r@ =~= spec_platform_architectures(device, wasmer_available));
    }
    r
}

/// The execution-type capability list of this host.
pub fn get_platform_execution_types(wasmer_available: bool, docker_available: bool) -> (r: Vec<
    PlatformExecutionType,
>)
    ensures
        r@ == spec_platform_execution_types(wasmer_available, docker_available),
{
    let mut r: Vec<PlatformExecutionType> = Vec::new();
    if docker_available {
        r.push(PlatformExecutionType::Docker);
    }
    if wasmer_available {
        r.push(PlatformExecutionType::Wasmer);
    }
    r.push(PlatformExecutionType::BareMetal);
    proof {
        assert(r@ =~= spec_platform_execution_types(wasmer_available, docker_available));
    }
    r
}

/// Sum of the available space of every disk, saturating at the largest
/// representable size.
pub open spec fn spec_total_disk_space(disks: Seq<u64>) -> u64
    decreases disks.len(),
{
    if disks.len() == 0 {
        0u64
    } else {
        let rest = spec_total_disk_space(disks.drop_last());
        if rest + disks.last() > u64::MAX {
            u64::MAX
        } else {
            (rest + disks.last()) as u64
        }
    }
}

/// Sums the available space of every disk, saturating instead of
/// overflowing.
pub fn total_disk_space(disks: &Vec<u64>) -> (r: u64)
    ensures
        r == spec_total_disk_space(disks@),
{
    let mut acc: u64 = 0;
    let mut i: usize = 0;
    while i < disks.len()
        invariant
            i <= disks.len(),
            acc == spec_total_disk_space(disks@.subrange(0, i as int)),
        decreases disks.len() - i,
    {
        let d = disks[i];
        if acc > u64::MAX - d {
            acc = u64::MAX;
        } else {
            acc = acc + d;
        }
        i = i + 1;
        proof {
            let pre = disks@.subrange(0, i - 1);
            let cur = disks@.subrange(0, i as int);
            assert(cur.drop_last() =~= pre);
            assert(cur.last() == disks@[i - 1]);
        }
    }
    proof {
        assert(disks@.subrange(0, disks@.len() as int) =~= disks@);
    }
    acc
}

/// Hardware and capability description of a host.
pub struct Configuration {
    pub mem_bytes: u64,
    pub disk_bytes: u64,
    pub platform_architecture_types: Vec<PlatformArchitecture>,
    pub platform_execution_types: Vec<PlatformExecutionType>,
}

/// Registration payload for a new host; registered hosts start untagged.
pub struct CreateHostDTO {
    pub tags: Vec<(String, String)>,
    pub configuration: Configuration,
}

/// The registration payload of this host, from the machine's readings: its
/// memory, the summed available disk space, and the capability lists that
/// follow from the machine's architecture and its available backend tools.
pub fn register_host(
    mem_bytes: u64,
    disk_available_bytes: &Vec<u64>,
    device: PlatformArchitecture,
    wasmer_available: bool,
    docker_available: bool,
) -> (r: CreateHostDTO)
    ensures
        r.tags@.len() == 0,
        r.configuration.mem_bytes == mem_bytes,
        r.configuration.disk_bytes == spec_total_disk_space(disk_available_bytes@),
        r.configuration.platform_architecture_types@ == spec_platform_architectures(
            device,
            wasmer_available,
        ),
        r.configuration.platform_execution_types@ == spec_platform_execution_types(
            wasmer_available,
            docker_available,
        ),
{
    CreateHostDTO {
        tags: Vec::new(),
        configuration: Configuration {
            mem_bytes,
            disk_bytes: total_disk_space(disk_available_bytes),
            platform_architecture_types: get_platform_architectures(device, wasmer_available),
            platform_execution_types: get_platform_execution_types(
                wasmer_available,
                docker_available,
            ),
        },
    }
}

} // verus!
