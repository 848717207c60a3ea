use orbix_backend::handlers::{auth, clients, contracts, invoices, projects, resumes, time_tracking};
use orbix_backend::router::{Method, Operation, Route};

#[test]
fn registration_and_login_are_the_only_open_operations() {
    let open: Vec<Route> = auth::routes();
    assert_eq!(
        open,
        vec![
            Route { method: Method::Post, path: "/register", operation: Operation::Register },
            Route { method: Method::Post, path: "/login", operation: Operation::Login },
        ]
    );
    assert!(open.iter().all(|r| !r.operation.needs_token()));
    assert!(!Operation::Register.needs_token());
    assert!(!Operation::Login.needs_token());
}

#[test]
fn every_route_of_a_resource_stands_behind_the_gateway() {
    let groups = [
        clients::routes(),
        contracts::routes(),
        invoices::routes(),
        projects::routes(),
        resumes::routes(),
        time_tracking::routes(),
    ];
    let mut count = 0;
    for group in groups.iter() {
        for route in group {
            assert!(route.operation.needs_token(), "{:?}", route);
            count += 1;
        }
    }
    assert_eq!(count, 30);
}

#[test]
fn routes_of_the_clients() {
    assert_eq!(
        clients::routes(),
        vec![
            Route { method: Method::Get, path: "/", operation: Operation::ListClients },
            Route { method: Method::Post, path: "/", operation: Operation::CreateClient },
            Route { method: Method::Get, path: "/:id", operation: Operation::GetClient },
            Route { method: Method::Put, path: "/:id", operation: Operation::UpdateClient },
            Route { method: Method::Delete, path: "/:id", operation: Operation::DeleteClient },
        ]
    );
}

#[test]
fn invoices_cannot_be_deleted_and_resumes_cannot_be_updated() {
    assert!(invoices::routes().iter().all(|r| r.method != Method::Delete));
    assert!(resumes::routes().iter().all(|r| r.method != Method::Put));
    assert!(invoices::routes().contains(&Route {
        method: Method::Put,
        path: "/:id",
        operation: Operation::UpdateInvoiceStatus
    }));
    assert!(resumes::routes().contains(&Route {
        method: Method::Post,
        path: "/optimize",
        operation: Operation::OptimizeResume
    }));
    assert!(time_tracking::routes().contains(&Route {
        method: Method::Post,
        path: "/:id/stop",
        operation: Operation::StopTimeEntry
    }));
}

#[test]
fn no_two_routes_of_a_group_share_method_and_path() {
    for group in [
        auth::routes(),
        clients::routes(),
        contracts::routes(),
        invoices::routes(),
        projects::routes(),
        resumes::routes(),
        time_tracking::routes(),
    ] {
        for (i, a) in group.iter().enumerate() {
            for b in group.iter().skip(i + 1) {
                assert!(a.method != b.method || a.path != b.path);
                assert_ne!(a.operation, b.operation);
            }
        }
    }
}
