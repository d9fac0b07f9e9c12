use vstd::prelude::*;

verus! {

/// The method of a request.
#[derive(Clone, Copy, Debug, PartialEq, Eq, Structural)]
pub enum Method {
    Get,
    Post,
    Put,
    Delete,
}

/// The operations that the service routes.
#[derive(Clone, Copy, Debug, PartialEq, Eq, Structural)]
pub enum Operation {
    Login,
    CreateUser,
    GetUser,
    ListUsers,
    CreateTask,
    GetTask,
    ListTasks,
    UpdateTask,
    DeleteTask,
}

impl Operation {
    /// The operations that are reached without the authentication of the
    /// request: logging in, and the registration of a user. Every other
    /// operation is protected.
    pub open spec fn is_public_spec(self) -> bool {
        self == Operation::Login || self == Operation::CreateUser
    }

    pub fn is_public(self) -> (public: bool)
        ensures
            public == self.is_public_spec(),
    {
        match self {
            Operation::Login => true,
            Operation::CreateUser => true,
            _ => false,
        }
    }

    pub open spec fn method_spec(self) -> Method {
        match self {
            Operation::Login => Method::Post,
            Operation::CreateUser => Method::Post,
            Operation::GetUser => Method::Get,
            Operation::ListUsers => Method::Get,
            Operation::CreateTask => Method::Post,
            Operation::GetTask => Method::Get,
            Operation::ListTasks => Method::Get,
            Operation::UpdateTask => Method::Put,
            Operation::DeleteTask => Method::Delete,
        }
    }

    /// The method under which the operation is routed.
    pub fn method(self) -> (method: Method)
        ensures
            method == self.method_spec(),
    {
        match self {
            Operation::Login => Method::Post,
            Operation::CreateUser => Method::Post,
            Operation::GetUser => Method::Get,
            Operation::ListUsers => Method::Get,
            Operation::CreateTask => Method::Post,
            Operation::GetTask => Method::Get,
            Operation::ListTasks => Method::Get,
            Operation::UpdateTask => Method::Put,
            Operation::DeleteTask => Method::Delete,
        }
    }

    pub open spec fn path_spec(self) -> Seq<char> {
        match self {
            Operation::Login => "/api/auth/login"@,
            Operation::CreateUser => "/api/users"@,
            Operation::GetUser => "/api/users/:id"@,
            Operation::ListUsers => "/api/users"@,
            Operation::CreateTask => "/api/tasks"@,
            Operation::GetTask => "/api/tasks/:id"@,
            Operation::ListTasks => "/api/tasks"@,
            Operation::UpdateTask => "/api/tasks/:id"@,
            Operation::DeleteTask => "/api/tasks/:id"@,
        }
    }

    /// The path under which the operation is routed; `:id` stands for the
    /// identifier of a record.
    pub fn path(self) -> (path: &'static str)
        ensures
            path@ == self.path_spec(),
    {
        match self {
            Operation::Login => "/api/auth/login",
            Operation::CreateUser => "/api/users",
            Operation::GetUser => "/api/users/:id",
            Operation::ListUsers => "/api/users",
            Operation::CreateTask => "/api/tasks",
            Operation::GetTask => "/api/tasks/:id",
            Operation::ListTasks => "/api/tasks",
            Operation::UpdateTask => "/api/tasks/:id",
            Operation::DeleteTask => "/api/tasks/:id",
        }
    }
}

/// Every routed operation, once.
pub fn operations() -> (all: Vec<Operation>)
    ensures
        all@ == seq![
            Operation::Login,
            Operation::CreateUser,
            Operation::GetUser,
            Operation::ListUsers,
            Operation::CreateTask,
            Operation::GetTask,
            Operation::ListTasks,
            Operation::UpdateTask,
            Operation::DeleteTask,
        ],
        forall|operation: Operation| all@.contains(operation),
{
    let all = vec![
        Operation::Login,
        Operation::CreateUser,
        Operation::GetUser,
        Operation::ListUsers,
        Operation::CreateTask,
        Operation::GetTask,
        Operation::ListTasks,
        Operation::UpdateTask,
        Operation::DeleteTask,
    ];
    assert forall|operation: Operation| all@.contains(operation) by {
        match operation {
            Operation::Login => assert(all@[0] == operation),
            Operation::CreateUser => assert(all@[1] == operation),
            Operation::GetUser => assert(all@[2] == operation),
            Operation::ListUsers => assert(all@[3] == operation),
            Operation::CreateTask => assert(all@[4] == operation),
            Operation::GetTask => assert(all@[5] == operation),
            Operation::ListTasks => assert(all@[6] == operation),
            Operation::UpdateTask => assert(all@[7] == operation),
            Operation::DeleteTask => assert(all@[8] == operation),
        }
    }
    all
}

} // verus!
