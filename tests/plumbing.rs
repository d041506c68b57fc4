use mayastor::device::Bdevs;
use mayastor::grpc::{print_error_chain, rpc_call, sync_config, Code, Status};
use mayastor::nvme::{NVMe, NexusBdevError, NvmeCreateContext, TransportType, MAX_NAMESPACES, TRADDR_LEN};

#[test]
fn error_chain_joins_causes_outermost_first() {
    let chain = vec![
        "failed to create pool".to_string(),
        "cannot open device".to_string(),
        "no such file".to_string(),
    ];
    assert_eq!(
        print_error_chain(&chain),
        "failed to create pool: cannot open device: no such file"
    );
    assert_eq!(print_error_chain(&vec!["alone".to_string()]), "alone");
    assert_eq!(print_error_chain(&vec![]), "");
}

#[test]
fn sync_config_reports_export_failure() {
    let ok: Result<u32, Status> = Ok(7);
    assert_eq!(sync_config(ok.clone(), true), Ok(7));
    assert_eq!(
        sync_config(ok, false),
        Err(Status { code: Code::DataLoss, message: "Failed to export config".to_string() })
    );
    let failed: Result<u32, Status> =
        Err(Status { code: Code::NotFound, message: "gone".to_string() });
    assert_eq!(sync_config(failed.clone(), false), failed);
}

#[test]
fn rpc_call_only_on_management_core() {
    let ok: Result<u32, Status> = Ok(1);
    assert_eq!(rpc_call(0, 0, ok.clone()), Ok(1));
    let r = rpc_call(3, 0, ok);
    assert_eq!(r.unwrap_err().code, Code::Internal);
}

#[test]
fn nvme_name_from_uri_path() {
    let n = NVMe::try_from_path("/0000:01:00.0").unwrap();
    assert_eq!(n.get_name(), "0000:01:00.0");
    assert!(NVMe::try_from_path("").is_none());
}

#[test]
fn create_context_holds_the_name_zero_padded() {
    let n = NVMe { name: "0000:01:00.0".to_string() };
    let c = NvmeCreateContext::new(&n).unwrap();
    assert_eq!(c.trid.trtype, TransportType::Pcie);
    assert_eq!(c.trid.traddr.len(), TRADDR_LEN);
    assert_eq!(&c.trid.traddr[..12], b"0000:01:00.0");
    assert!(c.trid.traddr[12..].iter().all(|b| *b == 0));
    assert_eq!(c.count, MAX_NAMESPACES);
    assert_eq!(c.prchk_flags, 0);
}

#[test]
fn create_context_refuses_long_name() {
    let long = "x".repeat(TRADDR_LEN);
    let n = NVMe { name: long.clone() };
    assert_eq!(
        NvmeCreateContext::new(&n).unwrap_err(),
        NexusBdevError::NameTooLong { name: long }
    );
    let fits = NVMe { name: "y".repeat(TRADDR_LEN - 1) };
    assert!(NvmeCreateContext::new(&fits).is_ok());
}

#[test]
fn create_refuses_existing_device() {
    let mut reg = Bdevs::new();
    reg.register("0000:01:00.0", 512, 1).unwrap();
    let n = NVMe { name: "0000:01:00.0".to_string() };
    assert_eq!(
        n.create_context(&reg).unwrap_err(),
        NexusBdevError::BdevExists { name: "0000:01:00.0".to_string() }
    );
    let other = NVMe { name: "0000:02:00.0".to_string() };
    assert!(other.create_context(&reg).is_ok());
}

#[test]
fn create_result_maps_statuses() {
    let n = NVMe { name: "ctrl".to_string() };
    assert_eq!(
        n.create_result(-22, 0, "ctrln1".to_string()),
        Err(NexusBdevError::InvalidParams { name: "ctrl".to_string(), errno: -22 })
    );
    assert_eq!(
        n.create_result(0, -5, "ctrln1".to_string()),
        Err(NexusBdevError::CreateBdev { name: "ctrl".to_string(), errno: -5 })
    );
    assert_eq!(n.create_result(0, 0, "ctrln1".to_string()), Ok("ctrln1".to_string()));
}

#[test]
fn register_refuses_duplicate_name() {
    let mut reg = Bdevs::new();
    assert!(reg.register("a", 1, 1).is_some());
    assert!(reg.register("a", 1, 1).is_none());
    assert_eq!(reg.lookup("a"), Some(0));
    assert_eq!(reg.lookup("b"), None);
}
